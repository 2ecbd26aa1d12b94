//! The persisted theme preference: which name is written for each choice,
//! and which choice is read back from the preference file.

use vstd::prelude::*;
use crate::text::{trim, str_eq, trimmed, is_space, trim_start, trim_end, opt_view, lemma_trimmed_idempotent};

verus! {

/// Name of the preference file inside the application's configuration directory.
pub const THEME_FILE_NAME: &'static str = "theme.txt";

/// The theme the user chose: a fixed dark or light theme, or following the system.
#[derive(Clone, Copy, Debug, PartialEq, Eq, Structural)]
pub enum ThemePref {
    Dark,
    Light,
    System,
}

/// The word stored in the preference file for each choice.
pub open spec fn pref_name(p: ThemePref) -> Seq<char> {
    match p {
        ThemePref::Dark => "dark"@,
        ThemePref::Light => "light"@,
        ThemePref::System => "system"@,
    }
}

/// The choice restored from the file's contents (`None` when it could not be
/// read): its trimmed text `dark` or `light` selects that theme, anything else
/// follows the system.
pub open spec fn pref_from_contents(contents: Option<Seq<char>>) -> ThemePref {
    match contents {
        Some(c) => if trimmed(c) == "dark"@ {
            ThemePref::Dark
        } else if trimmed(c) == "light"@ {
            ThemePref::Light
        } else {
            ThemePref::System
        },
        None => ThemePref::System,
    }
}

/// The word written to the preference file when the user picks `pref`.
pub fn theme_pref_name(pref: ThemePref) -> (r: &'static str)
    ensures
        r@ == pref_name(pref),
{
    match pref {
        ThemePref::Dark => "dark",
        ThemePref::Light => "light",
        ThemePref::System => "system",
    }
}

/// Reads the preference back from the file's contents, `None` when the file
/// could not be read.
pub fn parse_theme_pref(contents: Option<&str>) -> (r: ThemePref)
    ensures
        r == pref_from_contents(opt_view(contents)),
{
    match contents {
        Some(c) => {
            let t = trim(c);
            if str_eq(t, "dark") {
                ThemePref::Dark
            } else if str_eq(t, "light") {
                ThemePref::Light
            } else {
                ThemePref::System
            }
        },
        None => ThemePref::System,
    }
}

proof fn lemma_trimmed_word(s: Seq<char>)
    requires
        s.len() > 0,
        !is_space(s[0]),
        !is_space(s.last()),
    ensures
        trimmed(s) == s,
{
    assert(trim_start(s) == s);
    assert(trim_end(s) == s);
}

/// A saved preference is restored as the same choice.
pub proof fn lemma_theme_roundtrip(pref: ThemePref)
    ensures
        pref_from_contents(Some(pref_name(pref))) == pref,
{
    reveal_strlit("dark");
    reveal_strlit("light");
    reveal_strlit("system");
    assert('d' as u32 == 0x64);
    assert('k' as u32 == 0x6b);
    assert('l' as u32 == 0x6c);
    assert('t' as u32 == 0x74);
    assert('s' as u32 == 0x73);
    assert('m' as u32 == 0x6d);
    lemma_trimmed_word(pref_name(pref));
    assert("dark"@.len() == 4 && "light"@.len() == 5 && "system"@.len() == 6);
    assert("dark"@ != "light"@);
    assert("system"@ != "light"@);
    assert("system"@ != "dark"@);
}


/// The restored preference depends only on the trimmed contents of the file:
/// surrounding whitespace (such as a final newline) never changes it, and any
/// contents whose trimmed text is `dark` or `light` restore that theme.
pub proof fn lemma_theme_ignores_surrounding_space(contents: Seq<char>)
    ensures
        pref_from_contents(Some(contents)) == pref_from_contents(Some(trimmed(contents))),
        trimmed(contents) == "dark"@ ==> pref_from_contents(Some(contents)) == ThemePref::Dark,
        trimmed(contents) == "light"@ ==> pref_from_contents(Some(contents)) == ThemePref::Light,
        (trimmed(contents) != "dark"@ && trimmed(contents) != "light"@) ==> pref_from_contents(
            Some(contents),
        ) == ThemePref::System,
{
    lemma_trimmed_idempotent(contents);
    reveal_strlit("dark");
    reveal_strlit("light");
    assert("dark"@.len() == 4 && "light"@.len() == 5);
}

} // verus!
