//! The bot's locales and their Discord and documentation codes.

use vstd::prelude::*;

use crate::framework::context::CommandContext;
use crate::text::str_eq;

verus! {

/// A locale the bot is translated into.
#[derive(Clone, Copy, Debug, PartialEq, Eq, Structural)]
pub enum Locale {
    De,
    En,
    Es,
    Fr,
    Lt,
}

impl Locale {
    /// The locale used when no other one applies.
    pub const DEFAULT: Locale = Locale::En;

    /// Every locale, in the order of their codes.
    pub fn all() -> (res: Vec<Locale>)
        ensures
            res@ == all_locales(),
    {
        vec![Locale::De, Locale::En, Locale::Es, Locale::Fr, Locale::Lt]
    }
}

/// Every locale, in the order of their codes.
pub open spec fn all_locales() -> Seq<Locale> {
    seq![Locale::De, Locale::En, Locale::Es, Locale::Fr, Locale::Lt]
}

/// The Discord code of a locale.
pub open spec fn discord_code(locale: Locale) -> Seq<char> {
    match locale {
        Locale::En => "en-US"@,
        Locale::Fr => "fr"@,
        Locale::Es => "es-ES"@,
        Locale::De => "de"@,
        Locale::Lt => "lt"@,
    }
}

/// The locale of a Discord code; unknown codes give the default locale.
pub open spec fn locale_of_discord_code(code: Seq<char>) -> Locale {
    if code == "en-US"@ || code == "en-GB"@ {
        Locale::En
    } else if code == "fr"@ {
        Locale::Fr
    } else if code == "es-ES"@ || code == "es-419"@ {
        Locale::Es
    } else if code == "de"@ {
        Locale::De
    } else if code == "lt"@ {
        Locale::Lt
    } else {
        Locale::DEFAULT
    }
}

/// The Orion documentation language of a locale: French or else English.
pub open spec fn docs_code(locale: Locale) -> Seq<char> {
    match locale {
        Locale::Fr => "fr"@,
        _ => "en"@,
    }
}

/// Converts a locale to a Discord locale.
///
/// See https://docs.discord.com/developers/reference#locales
pub fn get_discord_locale(locale: &Locale) -> (res: &'static str)
    ensures
        res@ == discord_code(*locale),
{
    match *locale {
        Locale::En => "en-US",
        Locale::Fr => "fr",
        Locale::Es => "es-ES",
        Locale::De => "de",
        Locale::Lt => "lt",
    }
}

/// Converts a Discord locale to a locale.
///
/// See https://docs.discord.com/developers/reference#locales
pub fn from_discord_locale(locale: &str) -> (res: Locale)
    ensures
        res == locale_of_discord_code(locale@),
{
    if str_eq(locale, "en-US") || str_eq(locale, "en-GB") {
        Locale::En
    } else if str_eq(locale, "fr") {
        Locale::Fr
    } else if str_eq(locale, "es-ES") || str_eq(locale, "es-419") {
        Locale::Es
    } else if str_eq(locale, "de") {
        Locale::De
    } else if str_eq(locale, "lt") {
        Locale::Lt
    } else {
        Locale::DEFAULT
    }
}

/// Converts a locale to an Orion Docs locale.
pub fn get_docs_locale(locale: &Locale) -> (res: &'static str)
    ensures
        res@ == docs_code(*locale),
{
    match *locale {
        Locale::Fr => "fr",
        _ => "en",
    }
}

/// Gets all translations of a key: for each locale, in order, its Discord code
/// and what `t` gives for it.
pub fn localize_key<F: Fn(Locale) -> String>(t: F) -> (res: Vec<(String, String)>)
    requires
        forall|l: Locale| call_requires(t, (l,)),
    ensures
        res@.len() == all_locales().len(),
        forall|i: int|
            0 <= i < res@.len() ==> {
                &&& (#[trigger] res@[i]).0@ == discord_code(all_locales()[i])
                &&& call_ensures(t, (all_locales()[i],), res@[i].1)
            },
{
    let all = Locale::all();
    let mut res: Vec<(String, String)> = Vec::new();
    let mut i: usize = 0;
    while i < all.len()
        invariant
            all@ == all_locales(),
            i <= all@.len(),
            res@.len() == i,
            forall|l: Locale| call_requires(t, (l,)),
            forall|j: int|
                0 <= j < i ==> {
                    &&& (#[trigger] res@[j]).0@ == discord_code(all_locales()[j])
                    &&& call_ensures(t, (all_locales()[j],), res@[j].1)
                },
        decreases all@.len() - i,
    {
        let locale = all[i];
        let code = get_discord_locale(&locale).to_owned();
        let text = t(locale);
        res.push((code, text));
        i = i + 1;
    }
    res
}

impl CommandContext {
    /// The locale of the user who invoked the command: that of their Discord
    /// locale, or the default locale when the interaction carries none.
    pub fn i18n_locale(&self) -> (res: Locale)
        ensures
            res == match self.locale {
                Some(l) => locale_of_discord_code(l@),
                None => Locale::DEFAULT,
            },
    {
        match &self.locale {
            Some(l) => from_discord_locale(l.as_str()),
            None => Locale::DEFAULT,
        }
    }
}

/// Each locale's Discord code reads back as that locale.
pub proof fn lemma_discord_code_round_trip(locale: Locale)
    ensures
        locale_of_discord_code(discord_code(locale)) == locale,
{
    reveal_strlit("en-US");
    reveal_strlit("en-GB");
    reveal_strlit("fr");
    reveal_strlit("es-ES");
    reveal_strlit("es-419");
    reveal_strlit("de");
    reveal_strlit("lt");
    let c = discord_code(locale);
    match locale {
        Locale::En => {},
        Locale::Fr => {
            assert(c.len() == 2 && c[0] == 'f');
            assert(c != "en-US"@ && c != "en-GB"@);
        },
        Locale::Es => {
            assert(c.len() == 5 && c[0] == 'e' && c[1] == 's');
            assert(c != "en-US"@ && c != "en-GB"@ && c != "fr"@);
        },
        Locale::De => {
            assert(c.len() == 2 && c[0] == 'd');
            assert(c != "en-US"@ && c != "en-GB"@ && c != "fr"@ && c != "es-ES"@ && c != "es-419"@);
        },
        Locale::Lt => {
            assert(c.len() == 2 && c[0] == 'l');
            assert(c != "en-US"@ && c != "en-GB"@ && c != "fr"@ && c != "es-ES"@ && c != "es-419"@
                && c != "de"@);
        },
    }
}

} // verus!
