//! The choice of whether to colour the output.
use vstd::prelude::*;

use vstd::std_specs::convert::{FromSpecImpl, TryFromSpecImpl};
use vstd::string::*;

verus! {

/// Whether to colour the output of the command line interface.
#[derive(Clone, Copy, Debug, PartialEq, Eq, Structural)]
pub enum ColourChoice {
    /// Try very hard to emit colours, with ANSI colours on Windows if the
    /// console API is unavailable.
    Always,
    /// Like `Always`, but never uses anything other than ANSI colour codes.
    AlwaysAnsi,
    /// Use colours if the output and the environment allow it.
    Auto,
    /// Never emit colours.
    Never,
}

/// The code point of `c` in lower case, for ASCII letters.
pub open spec fn lower_code(c: char) -> u32 {
    if 'A' <= c && c <= 'Z' {
        (c as u32 + 32) as u32
    } else {
        c as u32
    }
}

/// Whether `s` is `word` (written in lower case) up to the case of ASCII
/// letters.
pub open spec fn matches_ignoring_case(s: Seq<char>, word: Seq<char>) -> bool {
    s.len() == word.len() && forall|i: int| 0 <= i < s.len() ==> lower_code(#[trigger] s[i]) == word[i] as u32
}

fn lower_code_of(c: char) -> (code: u32)
    ensures
        code == lower_code(c),
{
    if 'A' <= c && c <= 'Z' {
        c as u32 + 32
    } else {
        c as u32
    }
}

fn matches_word(s: &str, word: &str) -> (matches: bool)
    ensures
        matches == matches_ignoring_case(s@, word@),
{
    let n = s.unicode_len();
    if n != word.unicode_len() {
        return false;
    }
    let mut i: usize = 0;
    while i < n
        invariant
            n == s@.len(),
            n == word@.len(),
            i <= n,
            forall|k: int| 0 <= k < i ==> lower_code(#[trigger] s@[k]) == word@[k] as u32,
        decreases n - i,
    {
        if lower_code_of(s.get_char(i)) != word.get_char(i) as u32 {
            return false;
        }
        i += 1;
    }
    true
}

impl ColourChoice {
    /// The name of the choice, as used in configuration and on the command
    /// line.
    pub open spec fn spec_name(self) -> Seq<char> {
        match self {
            ColourChoice::Always => "always"@,
            ColourChoice::AlwaysAnsi => "ansi"@,
            ColourChoice::Auto => "auto"@,
            ColourChoice::Never => "never"@,
        }
    }

    /// The choice that a name stands for, in any case of ASCII letters.
    pub open spec fn spec_from_name(name: Seq<char>) -> Option<ColourChoice> {
        if matches_ignoring_case(name, "always"@) {
            Some(ColourChoice::Always)
        } else if matches_ignoring_case(name, "ansi"@) {
            Some(ColourChoice::AlwaysAnsi)
        } else if matches_ignoring_case(name, "auto"@) {
            Some(ColourChoice::Auto)
        } else if matches_ignoring_case(name, "never"@) {
            Some(ColourChoice::Never)
        } else {
            None
        }
    }

    /// The name of the choice.
    pub fn name(&self) -> (name: &'static str)
        ensures
            name@ == self.spec_name(),
    {
        match self {
            ColourChoice::Always => "always",
            ColourChoice::AlwaysAnsi => "ansi",
            ColourChoice::Auto => "auto",
            ColourChoice::Never => "never",
        }
    }

    /// Changes the value to `Never` if `Auto` was chosen and the output isn't
    /// a terminal.
    pub fn change_based_on_tty(self, stdout_is_tty: bool) -> (choice: ColourChoice)
        ensures
            choice == (if self == ColourChoice::Auto && !stdout_is_tty {
                ColourChoice::Never
            } else {
                self
            }),
    {
        match self {
            ColourChoice::Auto => if stdout_is_tty {
                ColourChoice::Auto
            } else {
                ColourChoice::Never
            },
            _ => self,
        }
    }
}

impl Default for ColourChoice {
    fn default() -> (choice: ColourChoice)
        ensures
            choice == ColourChoice::Auto,
    {
        ColourChoice::Auto
    }
}

impl<'a> TryFrom<&'a str> for ColourChoice {
    type Error = ();

    fn try_from(value: &'a str) -> (result: Result<ColourChoice, ()>)
        ensures
            result == (match ColourChoice::spec_from_name(value@) {
                Some(choice) => Ok::<ColourChoice, ()>(choice),
                None => Err(()),
            }),
    {
        if matches_word(value, "always") {
            Ok(ColourChoice::Always)
        } else if matches_word(value, "ansi") {
            Ok(ColourChoice::AlwaysAnsi)
        } else if matches_word(value, "auto") {
            Ok(ColourChoice::Auto)
        } else if matches_word(value, "never") {
            Ok(ColourChoice::Never)
        } else {
            Err(())
        }
    }
}

impl<'a> TryFromSpecImpl<&'a str> for ColourChoice {
    open spec fn obeys_try_from_spec() -> bool {
        true
    }

    open spec fn try_from_spec(value: &'a str) -> Result<ColourChoice, ()> {
        match ColourChoice::spec_from_name(value@) {
            Some(choice) => Ok(choice),
            None => Err(()),
        }
    }
}

impl From<ColourChoice> for &'static str {
    fn from(choice: ColourChoice) -> (name: &'static str)
        ensures
            name@ == choice.spec_name(),
    {
        choice.name()
    }
}

impl FromSpecImpl<ColourChoice> for &'static str {
    /// The result is described by its text instead, by the `ensures` of
    /// `from`.
    open spec fn obeys_from_spec() -> bool {
        false
    }

    open spec fn from_spec(choice: ColourChoice) -> &'static str {
        arbitrary()
    }
}

/// Reading the name of a choice gives the choice back.
pub proof fn lemma_colour_choice_name_round_trip(choice: ColourChoice)
    ensures
        ColourChoice::spec_from_name(choice.spec_name()) == Some(choice),
{
    reveal_strlit("always");
    reveal_strlit("ansi");
    reveal_strlit("auto");
    reveal_strlit("never");
    match choice {
        ColourChoice::Always => {
            assert(matches_ignoring_case("always"@, "always"@));
        },
        ColourChoice::AlwaysAnsi => {
            assert(matches_ignoring_case("ansi"@, "ansi"@));
            assert(!matches_ignoring_case("ansi"@, "always"@));
        },
        ColourChoice::Auto => {
            assert(matches_ignoring_case("auto"@, "auto"@));
            assert(!matches_ignoring_case("auto"@, "always"@));
            assert(lower_code("auto"@[1]) != "ansi"@[1] as u32);
            assert(!matches_ignoring_case("auto"@, "ansi"@));
        },
        ColourChoice::Never => {
            assert(matches_ignoring_case("never"@, "never"@));
            assert(!matches_ignoring_case("never"@, "always"@));
            assert(!matches_ignoring_case("never"@, "ansi"@));
            assert(!matches_ignoring_case("never"@, "auto"@));
        },
    }
}

/// The names of the choices: `always`, `ansi`, `auto` and `never`, read in any
/// case, each give the choice of that name, and each choice is written with
/// its name.
pub proof fn lemma_colour_choice_names()
    ensures
        ColourChoice::spec_from_name(seq!['a', 'l', 'w', 'a', 'y', 's']) == Some(ColourChoice::Always),
        ColourChoice::spec_from_name(seq!['A', 'L', 'W', 'A', 'Y', 'S']) == Some(ColourChoice::Always),
        ColourChoice::Always.spec_name() == seq!['a', 'l', 'w', 'a', 'y', 's'],
        ColourChoice::spec_from_name(seq!['a', 'n', 's', 'i']) == Some(ColourChoice::AlwaysAnsi),
        ColourChoice::spec_from_name(seq!['A', 'N', 'S', 'I']) == Some(ColourChoice::AlwaysAnsi),
        ColourChoice::AlwaysAnsi.spec_name() == seq!['a', 'n', 's', 'i'],
        ColourChoice::spec_from_name(seq!['a', 'u', 't', 'o']) == Some(ColourChoice::Auto),
        ColourChoice::spec_from_name(seq!['A', 'U', 'T', 'O']) == Some(ColourChoice::Auto),
        ColourChoice::Auto.spec_name() == seq!['a', 'u', 't', 'o'],
        ColourChoice::spec_from_name(seq!['n', 'e', 'v', 'e', 'r']) == Some(ColourChoice::Never),
        ColourChoice::spec_from_name(seq!['N', 'E', 'V', 'E', 'R']) == Some(ColourChoice::Never),
        ColourChoice::Never.spec_name() == seq!['n', 'e', 'v', 'e', 'r'],
{
    reveal_strlit("always");
    reveal_strlit("ansi");
    reveal_strlit("auto");
    reveal_strlit("never");
    assert(matches_ignoring_case(seq!['a', 'l', 'w', 'a', 'y', 's'], "always"@));
    assert(matches_ignoring_case(seq!['A', 'L', 'W', 'A', 'Y', 'S'], "always"@));
    assert(matches_ignoring_case(seq!['a', 'n', 's', 'i'], "ansi"@));
    assert(matches_ignoring_case(seq!['A', 'N', 'S', 'I'], "ansi"@));
    assert(matches_ignoring_case(seq!['a', 'u', 't', 'o'], "auto"@));
    assert(matches_ignoring_case(seq!['A', 'U', 'T', 'O'], "auto"@));
    assert(matches_ignoring_case(seq!['n', 'e', 'v', 'e', 'r'], "never"@));
    assert(matches_ignoring_case(seq!['N', 'E', 'V', 'E', 'R'], "never"@));
    assert(!matches_ignoring_case(seq!['a', 'u', 't', 'o'], "ansi"@));
    assert(!matches_ignoring_case(seq!['A', 'U', 'T', 'O'], "ansi"@));
    assert(ColourChoice::Always.spec_name() =~= seq!['a', 'l', 'w', 'a', 'y', 's']);
    assert(ColourChoice::AlwaysAnsi.spec_name() =~= seq!['a', 'n', 's', 'i']);
    assert(ColourChoice::Auto.spec_name() =~= seq!['a', 'u', 't', 'o']);
    assert(ColourChoice::Never.spec_name() =~= seq!['n', 'e', 'v', 'e', 'r']);
}

} // verus!
