//! Fixed tables: the library's packages, its style functions, and how many
//! arguments each annotatable function takes before it has a debug id.
use vstd::prelude::*;
use vstd::string::*;

verus! {

/// Package whose import marks a module as already transformed.
pub open spec fn file_scope_package() -> Seq<char> {
    "@vanilla-extract/css/fileScope"@
}

/// Local name of the namespace import that the wrapper adds.
pub open spec fn file_scope_import_name() -> Seq<char> {
    "__vanilla_filescope__"@
}

/// Packages whose imports are inspected.
pub open spec fn is_package_identifier(src: Seq<char>) -> bool {
    src == "@vanilla-extract/css"@ || src == "@vanilla-extract/recipes"@
}

/// The library's style-producing functions.
pub open spec fn is_style_function(name: Seq<char>) -> bool {
    ||| name == "style"@
    ||| name == "createTheme"@
    ||| name == "styleVariants"@
    ||| name == "fontFace"@
    ||| name == "keyframes"@
    ||| name == "createVar"@
    ||| name == "recipe"@
    ||| name == "createContainer"@
    ||| name == "globalStyle"@
    ||| name == "createGlobalTheme"@
    ||| name == "createThemeContract"@
    ||| name == "globalFontFace"@
    ||| name == "globalKeyframes"@
}

/// For an annotatable function, the argument count from which a call no longer
/// gets a debug id.
pub open spec fn max_params(name: Seq<char>) -> Option<nat> {
    if name == "style"@ {
        Some(2)
    } else if name == "createTheme"@ {
        Some(3)
    } else if name == "styleVariants"@ {
        Some(3)
    } else if name == "fontFace"@ {
        Some(2)
    } else if name == "keyframes"@ {
        Some(2)
    } else if name == "createVar"@ {
        Some(1)
    } else if name == "recipe"@ {
        Some(2)
    } else if name == "createContainer"@ {
        Some(1)
    } else {
        None
    }
}

/// Whether `s` holds exactly the text of `lit`.
pub fn eq_str(s: &String, lit: &str) -> (r: bool)
    ensures
        r == (s@ == lit@),
{
    let t = String::from_str(lit);
    s.eq(&t)
}

pub fn file_scope_package_string() -> (r: String)
    ensures
        r@ == file_scope_package(),
{
    String::from_str("@vanilla-extract/css/fileScope")
}

pub fn file_scope_import_name_string() -> (r: String)
    ensures
        r@ == file_scope_import_name(),
{
    String::from_str("__vanilla_filescope__")
}

pub fn is_package(src: &String) -> (r: bool)
    ensures
        r == is_package_identifier(src@),
{
    eq_str(src, "@vanilla-extract/css") || eq_str(src, "@vanilla-extract/recipes")
}

pub fn is_style_function_name(name: &str) -> (r: bool)
    ensures
        r == is_style_function(name@),
{
    let s = String::from_str(name);
    eq_str(&s, "style") || eq_str(&s, "createTheme") || eq_str(&s, "styleVariants")
        || eq_str(&s, "fontFace") || eq_str(&s, "keyframes") || eq_str(&s, "createVar")
        || eq_str(&s, "recipe") || eq_str(&s, "createContainer") || eq_str(&s, "globalStyle")
        || eq_str(&s, "createGlobalTheme") || eq_str(&s, "createThemeContract")
        || eq_str(&s, "globalFontFace") || eq_str(&s, "globalKeyframes")
}

pub fn debuggable_max_params(name: &String) -> (r: Option<usize>)
    ensures
        match r {
            Some(t) => max_params(name@) == Some(t as nat),
            None => max_params(name@) is None,
        },
{
    if eq_str(name, "style") {
        Some(2)
    } else if eq_str(name, "createTheme") {
        Some(3)
    } else if eq_str(name, "styleVariants") {
        Some(3)
    } else if eq_str(name, "fontFace") {
        Some(2)
    } else if eq_str(name, "keyframes") {
        Some(2)
    } else if eq_str(name, "createVar") {
        Some(1)
    } else if eq_str(name, "recipe") {
        Some(2)
    } else if eq_str(name, "createContainer") {
        Some(1)
    } else {
        None
    }
}

} // verus!
