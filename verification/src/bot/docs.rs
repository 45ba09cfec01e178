//! The Orion documentation: its pages, how the docs command picks one, and
//! which pages autocomplete suggests.

use vstd::prelude::*;

use crate::bot::config::{Config, Emojis, Palette};
use crate::bot::localization::{docs_code, get_docs_locale, Locale};
use crate::framework::meta::{ChoiceValue, OptionChoice};
use crate::framework::reply::{ephemeral_bit, Embed, Reply};
use crate::text::{contains_seq, lowercase, str_contains, str_eq, to_lowercase, trim_start_matches, trim_start_repeated};

verus! {

/// A page of the documentation sitemap.
#[derive(Debug)]
pub struct DocPage {
    pub name: String,
    pub url: String,
    pub description: String,
    pub lang: String,
}

/// The page URL the docs command looks for: the chosen one, or the home page
/// of the documentation in the user's language.
pub open spec fn chosen_url(choice: Option<Seq<char>>, locale: Locale) -> Seq<char> {
    match choice {
        Some(url) => url,
        None => Config::DOCS_URL@ + "/"@ + docs_code(locale),
    }
}

/// Gets the page URL the docs command looks for.
pub fn page_choice(choice: Option<&str>, locale: &Locale) -> (res: String)
    ensures
        res@ == chosen_url(match choice { Some(c) => Some(c@), None => None }, *locale),
{
    match choice {
        Some(c) => String::from_str(c),
        None => String::from_str(Config::DOCS_URL).concat("/").concat(get_docs_locale(locale)),
    }
}

/// The first page at `url`, by its index.
pub open spec fn page_index(pages: Seq<DocPage>, url: Seq<char>) -> Option<int>
    decreases pages.len(),
{
    if pages.len() == 0 {
        None
    } else {
        match page_index(pages.drop_last(), url) {
            Some(i) => Some(i),
            None => if pages.last().url@ == url {
                Some(pages.len() - 1)
            } else {
                None
            },
        }
    }
}

/// Finds the first page at `url`.
pub fn find_page(pages: &Vec<DocPage>, url: &str) -> (res: Option<usize>)
    ensures
        match res {
            Some(i) => page_index(pages@, url@) == Some(i as int),
            None => page_index(pages@, url@) is None,
        },
        res matches Some(i) ==> i < pages@.len() && pages@[i as int].url@ == url@,
{
    let mut i: usize = 0;
    while i < pages.len()
        invariant
            i <= pages@.len(),
            page_index(pages@.take(i as int), url@) is None,
        decreases pages@.len() - i,
    {
        proof {
            assert(pages@.take(i + 1).drop_last() =~= pages@.take(i as int));
        }
        if str_eq(pages[i].url.as_str(), url) {
            proof {
                lemma_page_index_prefix(pages@, url@, i + 1);
            }
            return Some(i);
        }
        i = i + 1;
    }
    assert(pages@.take(i as int) =~= pages@);
    None
}

/// A page found in a prefix is found at the same place in the whole.
proof fn lemma_page_index_prefix(pages: Seq<DocPage>, url: Seq<char>, n: int)
    requires
        0 <= n <= pages.len(),
        page_index(pages.take(n), url) is Some,
    ensures
        page_index(pages, url) == page_index(pages.take(n), url),
    decreases pages.len() - n,
{
    if n < pages.len() {
        assert(pages.take(n + 1).drop_last() =~= pages.take(n));
        lemma_page_index_prefix(pages, url, n + 1);
    } else {
        assert(pages.take(n) =~= pages);
    }
}

/// The reply text for a found page: its link in bold after the page emoji, then
/// its description.
pub open spec fn page_text(page: DocPage) -> Seq<char> {
    "**"@ + Emojis::PROPERTY@ + " ["@ + page.name@ + "]("@ + page.url@ + ") **\n"@ + page.description@
}

/// The reply of the docs command: the page's link, or, when no page is at the
/// URL, the warning emoji and the (translated) invalid-page text, ephemeral.
pub fn page_reply(page: Option<&DocPage>, invalid_text: &str) -> (res: Reply)
    ensures
        match page {
            Some(p) => res.content matches Some(c) && c@ == page_text(*p) && res.flags == 0,
            None => res.content matches Some(c) && c@ == Emojis::WARN@ + " "@ + invalid_text@
                && res.flags == 0u64 | ephemeral_bit(),
        },
        res.embeds@.len() == 0,
        res.components@.len() == 0,
        res.allowed_mentions matches Some(m) && m.is_none(),
{
    match page {
        Some(p) => {
            let text = String::from_str("**").concat(Emojis::PROPERTY).concat(" [").concat(
                p.name.as_str(),
            ).concat("](").concat(p.url.as_str()).concat(") **\n").concat(p.description.as_str());
            Reply::new().content(text)
        },
        None => {
            let text = String::from_str(Emojis::WARN).concat(" ").concat(invalid_text);
            Reply::new().content(text).ephemeral(true)
        },
    }
}

/// A page is suggested for the (lowercased) query when its lowercased name holds
/// the query and it is not a changelog (a name of 10 bytes holding a `/`).
pub open spec fn suggested(page: DocPage, query: Seq<char>) -> bool {
    &&& contains_seq(lowercase(page.name@), query)
    &&& !(contains_seq(page.name@, "/"@) && vstd::utf8::encode_utf8(page.name@).len() as usize == 10)
}

/// The suggested pages, in order.
pub open spec fn suggestions(pages: Seq<DocPage>, query: Seq<char>) -> Seq<DocPage>
    decreases pages.len(),
{
    if pages.len() == 0 {
        Seq::empty()
    } else if suggested(pages.last(), query) {
        suggestions(pages.drop_last(), query).push(pages.last())
    } else {
        suggestions(pages.drop_last(), query)
    }
}

/// Every page whose lowercased name holds the query and whose name holds no
/// `/` is suggested.
pub proof fn lemma_matching_pages_are_suggested(pages: Seq<DocPage>, query: Seq<char>, i: int)
    requires
        0 <= i < pages.len(),
        contains_seq(lowercase(pages[i].name@), query),
        !contains_seq(pages[i].name@, "/"@),
    ensures
        suggestions(pages, query).contains(pages[i]),
    decreases pages.len(),
{
    let rest = pages.drop_last();
    if i == pages.len() - 1 {
        let s = suggestions(pages, query);
        assert(s[s.len() - 1] == pages[i]);
    } else {
        lemma_matching_pages_are_suggested(rest, query, i);
        assert(rest[i] == pages[i]);
        let before = suggestions(rest, query);
        let j = choose|j: int| 0 <= j < before.len() && before[j] == pages[i];
        if suggested(pages.last(), query) {
            assert(suggestions(pages, query)[j] == pages[i]);
        }
    }
}

/// Only pages of the list are suggested, each one with its lowercased name
/// holding the query, and never a changelog (a name of 10 bytes holding a `/`).
pub proof fn lemma_suggestions_match(pages: Seq<DocPage>, query: Seq<char>, k: int)
    requires
        0 <= k < suggestions(pages, query).len(),
    ensures
        pages.contains(suggestions(pages, query)[k]),
        contains_seq(lowercase(suggestions(pages, query)[k].name@), query),
        !(contains_seq(suggestions(pages, query)[k].name@, "/"@) && vstd::utf8::encode_utf8(
            suggestions(pages, query)[k].name@,
        ).len() == 10),
    decreases pages.len(),
{
    let rest = pages.drop_last();
    let before = suggestions(rest, query);
    if k < before.len() {
        lemma_suggestions_match(rest, query, k);
        let j = choose|j: int| 0 <= j < rest.len() && rest[j] == before[k];
        assert(pages[j] == before[k]);
        if suggested(pages.last(), query) {
            assert(suggestions(pages, query)[k] == before[k]);
        }
    } else {
        assert(suggestions(pages, query)[k] == pages.last());
        assert(pages[pages.len() - 1] == pages.last());
    }
}

/// The most choices autocomplete may answer with.
pub open spec fn max_choices() -> int {
    25
}

/// `c` is the choice for page `p`: named by its language and name, valued by its URL.
pub open spec fn choice_for(c: OptionChoice, p: DocPage) -> bool {
    &&& c.name@ == p.lang@ + " - "@ + p.name@
    &&& c.value matches ChoiceValue::String(v) && v@ == p.url@
}

/// Whether a page named `name` is suggested for a query, given the lowercase
/// forms of its name and of the query: the name holds the query and is not a
/// changelog's.
pub fn is_suggested(name: &str, name_lower: &str, query_lower: &str) -> (res: bool)
    ensures
        res == (contains_seq(name_lower@, query_lower@) && !(contains_seq(name@, "/"@)
            && vstd::utf8::encode_utf8(name@).len() as usize == 10)),
{
    str_contains(name_lower, query_lower) && !(str_contains(name, "/") && name.len() == 10)
}

/// The autocomplete choices for what the user typed: the first 25 suggested pages.
pub fn autocomplete_choices(pages: &Vec<DocPage>, focused: &str) -> (res: Vec<OptionChoice>)
    ensures
        ({
            let s = suggestions(pages@, lowercase(focused@));
            &&& res@.len() == if s.len() < max_choices() { s.len() as int } else { max_choices() }
            &&& forall|k: int| 0 <= k < res@.len() ==> choice_for(#[trigger] res@[k], s[k])
        }),
{
    let query = to_lowercase(focused);
    let mut res: Vec<OptionChoice> = Vec::new();
    let mut i: usize = 0;
    while i < pages.len()
        invariant
            i <= pages@.len(),
            ({
                let s = suggestions(pages@.take(i as int), query@);
                &&& res@.len() == if s.len() < max_choices() { s.len() as int } else { max_choices() }
                &&& forall|k: int| 0 <= k < res@.len() ==> choice_for(#[trigger] res@[k], s[k])
            }),
        decreases pages@.len() - i,
    {
        let ghost before = suggestions(pages@.take(i as int), query@);
        proof {
            assert(pages@.take(i + 1).drop_last() =~= pages@.take(i as int));
        }
        let p = &pages[i];
        let name_lower = to_lowercase(p.name.as_str());
        let is_match = is_suggested(p.name.as_str(), name_lower.as_str(), query.as_str());
        proof {
            let s2 = suggestions(pages@.take(i + 1), query@);
            assert(pages@.take(i + 1).last() == *p);
            assert(is_match == suggested(*p, query@));
            if is_match {
                assert(s2 == before.push(*p));
            } else {
                assert(s2 == before);
            }
        }
        if is_match && res.len() < 25 {
            let name = String::from_str(p.lang.as_str()).concat(" - ").concat(p.name.as_str());
            let value = ChoiceValue::String(p.url.clone());
            res.push(OptionChoice { name, value });
        }
        i = i + 1;
    }
    assert(pages@.take(i as int) =~= pages@);
    res
}

/// The documentation list of the chatbot prompt: the French pages, each as
/// `- [name](path): description` with the documentation URL cut from the
/// front of its URL, separated by blank lines.
pub open spec fn docs_list_line(p: DocPage) -> Seq<char> {
    "- ["@ + p.name@ + "]("@ + trim_start_repeated(p.url@, Config::DOCS_URL@) + "): "@ + p.description@
}

/// The French pages, in order.
pub open spec fn french_pages(pages: Seq<DocPage>) -> Seq<DocPage>
    decreases pages.len(),
{
    if pages.len() == 0 {
        Seq::empty()
    } else if pages.last().lang@ == "fr"@ {
        french_pages(pages.drop_last()).push(pages.last())
    } else {
        french_pages(pages.drop_last())
    }
}

/// Lines joined by a blank line.
pub open spec fn joined_paragraphs(lines: Seq<Seq<char>>) -> Seq<char>
    decreases lines.len(),
{
    if lines.len() == 0 {
        Seq::empty()
    } else if lines.len() == 1 {
        lines[0]
    } else {
        joined_paragraphs(lines.drop_last()) + "\n\n"@ + lines.last()
    }
}

/// Builds the documentation list of the chatbot prompt.
pub fn docs_list_for_prompt(pages: &Vec<DocPage>) -> (res: String)
    ensures
        res@ == joined_paragraphs(french_pages(pages@).map_values(|p: DocPage| docs_list_line(p))),
{
    let mut res = String::new();
    let mut first = true;
    let mut i: usize = 0;
    while i < pages.len()
        invariant
            i <= pages@.len(),
            first <==> french_pages(pages@.take(i as int)).len() == 0,
            res@ == joined_paragraphs(french_pages(pages@.take(i as int)).map_values(|p: DocPage| docs_list_line(p))),
        decreases pages@.len() - i,
    {
        let ghost fr = french_pages(pages@.take(i as int));
        proof {
            assert(pages@.take(i + 1).drop_last() =~= pages@.take(i as int));
        }
        let p = &pages[i];
        if str_eq(p.lang.as_str(), "fr") {
            assert(pages@.take(i + 1).last() == *p);
            let path = trim_start_matches(p.url.as_str(), Config::DOCS_URL);
            let line = String::from_str("- [").concat(p.name.as_str()).concat("](").concat(
                path.as_str(),
            ).concat("): ").concat(p.description.as_str());
            let ghost mapped = fr.map_values(|p: DocPage| docs_list_line(p));
            proof {
                let fr2 = french_pages(pages@.take(i + 1));
                assert(pages@.take(i + 1).last() == *p);
                assert(fr2 == fr.push(*p));
                assert(fr2.map_values(|p: DocPage| docs_list_line(p)) =~= mapped.push(line@));
                assert(mapped.push(line@).drop_last() =~= mapped);
                if first {
                    assert(joined_paragraphs(mapped.push(line@)) == line@);
                }
            }
            if first {
                res = line;
            } else {
                res = res.concat("\n\n").concat(line.as_str());
                assert(res@ =~= joined_paragraphs(mapped) + "\n\n"@ + line@);
            }
            first = false;
        }
        i = i + 1;
    }
    assert(pages@.take(i as int) =~= pages@);
    res
}

/// The refusal when the documentation was already read during this turn.
pub const ALREADY_FETCHED: &'static str = "You have already fetched documentation during this turn. Read the data you just retrieved to formulate your answer, do not call this tool again.";

/// The refusal when the sitemap could not be had.
pub const NO_SITEMAP: &'static str = "Could not fetch the documentation sitemap.";

/// The refusal when no page has the asked URL.
pub const PAGE_NOT_FOUND: &'static str = "Could not find the requested page in the documentation.";

/// What the documentation tool of the chatbot does when asked for the page at
/// `url`: refuse when it was already called this turn, when the sitemap is not
/// there, or when no page has that URL; read the first page at that URL otherwise.
pub open spec fn fetch_target(already_called: bool, sitemap: Option<Seq<DocPage>>, url: Seq<char>) -> Result<
    int,
    Seq<char>,
> {
    if already_called {
        Err(ALREADY_FETCHED@)
    } else {
        match sitemap {
            None => Err(NO_SITEMAP@),
            Some(pages) => match page_index(pages, url) {
                Some(i) => Ok(i),
                None => Err(PAGE_NOT_FOUND@),
            },
        }
    }
}

/// What the model asks the documentation tool for: the URL of a page.
pub struct FetchDocsArgs {
    pub url: String,
}

/// What the documentation tool gives the model: the page's raw MDX.
pub struct FetchDocsOutput {
    pub text: String,
}

/// Why the documentation tool gave the model nothing.
#[derive(Debug)]
pub struct FetchDocsError(pub String);

/// Decides what the documentation tool does: the index of the page to read,
/// or the refusal to give the model.
pub fn fetch_docs_target(already_called: bool, sitemap: Option<&Vec<DocPage>>, args: &FetchDocsArgs) -> (res: Result<
    usize,
    FetchDocsError,
>)
    ensures
        match (res, fetch_target(already_called, match sitemap { Some(p) => Some(p@), None => None }, args.url@)) {
            (Ok(i), Ok(j)) => i == j,
            (Err(e), Err(f)) => e.0@ == f,
            _ => false,
        },
{
    if already_called {
        return Err(FetchDocsError(String::from_str(ALREADY_FETCHED)));
    }
    match sitemap {
        None => Err(FetchDocsError(String::from_str(NO_SITEMAP))),
        Some(pages) => match find_page(pages, args.url.as_str()) {
            Some(i) => Ok(i),
            None => Err(FetchDocsError(String::from_str(PAGE_NOT_FOUND))),
        },
    }
}

/// The address of the raw MDX source of a page.
pub fn mdx_url(page_url: &str) -> (res: String)
    ensures
        res@ == page_url@ + ".mdx"@,
{
    String::from_str(page_url).concat(".mdx")
}

/// The embed shown while the chatbot reads the documentation.
pub fn reading_embed() -> (res: Embed)
    ensures
        res.color == Some(Palette::GREEN),
        res.title is None,
        res.description matches Some(d) && d@ == Emojis::LOADER_GREEN@ + " Reading the documentation..."@,
{
    Embed {
        color: Some(Palette::GREEN),
        title: None,
        description: Some(String::from_str(Emojis::LOADER_GREEN).concat(" Reading the documentation...")),
    }
}

/// The address of the documentation sitemap: `{docs}/api/pages`.
pub fn sitemap_url() -> (res: String)
    ensures
        res@ == Config::DOCS_URL@ + "/api/pages"@,
{
    String::from_str(Config::DOCS_URL).concat("/api/pages")
}

} // verus!
