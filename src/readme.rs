use vstd::prelude::*;

use crate::text::{contains_seq, contains_text, occurs_at};

verus! {

/// Text whose presence in a README means that the footer is already there.
pub const FOOTER_MARKER: &'static str = "./akshithio/light-logo.png";

/// The footer's opening, up to the first logo's path.
pub const FOOTER_OPENING: &'static str = "\n<br />\n\n&nbsp;<img src=\"";

/// The footer after the first logo's path, up to its caption.
pub const FOOTER_REST: &'static str = "#gh-dark-mode-only\" alt=\"Akshith Garapati's Personal Icon - Doodle of Two Eyes Dark Mode\" width =\"24px\" align = \"left\" /><img src=\"./akshithio/dark-logo.png#gh-light-mode-only\" alt=\"Akshith Garapati's Personal Icon - Doodle of Two Eyes Dark Mode\" width =\"24px\" align = \"left\" /> ";

/// The first line of a README that the footer workflow creates.
pub const README_TITLE: &'static str = "# README";

/// The caption used when none is given, before the month and year.
pub const DEFAULT_CAPTION: &'static str = "hello world!";

/// What str::to_lowercase gives for `s`.
pub uninterp spec fn lower_of(s: Seq<char>) -> Seq<char>;

/// What str::trim_end gives for `s`.
pub uninterp spec fn trimmed_end_of(s: Seq<char>) -> Seq<char>;

/// Relies on str::to_lowercase: the lower-case form of `s`, which depends on
/// its characters alone.
#[verifier::external_body]
fn lowercase(s: &str) -> (r: String)
    ensures
        r@ == lower_of(s@),
{
    s.to_lowercase()
}

/// Relies on str::trim_end: `s` without its trailing whitespace.
#[verifier::external_body]
fn trim_trailing(s: &str) -> (r: String)
    ensures
        r@ == trimmed_end_of(s@),
{
    s.trim_end().to_string()
}

/// Relies on chrono::Utc::now and its `format("%b %Y")`: the current month's
/// abbreviated English name and the year, such as `Oct 2026`.
#[verifier::external_body]
fn utc_month_year() -> (r: String) {
    chrono::Utc::now().format("%b %Y").to_string()
}

pub open spec fn caption_of(custom: Option<Seq<char>>, month_year: Seq<char>) -> Seq<char> {
    match custom {
        Some(c) => c + " - "@ + month_year,
        None => DEFAULT_CAPTION@ + " - "@ + month_year,
    }
}

pub open spec fn opt_view(s: Option<String>) -> Option<Seq<char>> {
    match s {
        Some(v) => Some(v@),
        None => None,
    }
}

/// The footer caption: `custom` (or the default greeting), a dash, and the
/// lower-case month and year `month_year`.
pub fn footer_caption(custom: Option<String>, month_year: &str) -> (r: String)
    ensures
        r@ == caption_of(opt_view(custom), month_year@),
{
    let mut caption = match custom {
        Some(c) => c,
        None => String::from_str(DEFAULT_CAPTION),
    };
    caption.append(" - ");
    caption.append(month_year);
    caption
}

/// The footer caption for the current month, in lower case.
pub fn current_footer_caption(custom: Option<String>) -> (r: String)
    ensures
        exists|month_year: Seq<char>| r@ == caption_of(opt_view(custom), lower_of(month_year)),
{
    let month_year = utc_month_year();
    let lowered = lowercase(month_year.as_str());
    let r = footer_caption(custom, lowered.as_str());
    assert(r@ == caption_of(opt_view(custom), lower_of(month_year@)));
    r
}

pub open spec fn footer_of(caption: Seq<char>) -> Seq<char> {
    FOOTER_OPENING@ + FOOTER_MARKER@ + FOOTER_REST@ + caption + " "@
}

/// The footer with `caption`.
pub fn footer(caption: &str) -> (r: String)
    ensures
        r@ == footer_of(caption@),
{
    let mut text = String::from_str(FOOTER_OPENING);
    text.append(FOOTER_MARKER);
    text.append(FOOTER_REST);
    text.append(caption);
    text.append(" ");
    text
}

/// What the footer workflow does to a README.
#[derive(Clone, Debug, PartialEq, Eq)]
pub enum ReadmeChange {
    /// There was no README: write `text` as a new one.
    Created { text: String },
    /// The README lacked the footer: replace it with `text`.
    Extended { text: String },
    /// The README already carries the footer: leave it.
    Unchanged,
}

pub ghost enum ReadmeChangeModel {
    Created { text: Seq<char> },
    Extended { text: Seq<char> },
    Unchanged,
}

impl View for ReadmeChange {
    type V = ReadmeChangeModel;

    open spec fn view(&self) -> ReadmeChangeModel {
        match self {
            ReadmeChange::Created { text } => ReadmeChangeModel::Created { text: text@ },
            ReadmeChange::Extended { text } => ReadmeChangeModel::Extended { text: text@ },
            ReadmeChange::Unchanged => ReadmeChangeModel::Unchanged,
        }
    }
}

pub open spec fn readme_change_of(existing: Option<Seq<char>>, caption: Seq<char>) -> ReadmeChangeModel {
    match existing {
        None => ReadmeChangeModel::Created { text: README_TITLE@ + footer_of(caption) },
        Some(content) => if contains_seq(content, FOOTER_MARKER@) {
            ReadmeChangeModel::Unchanged
        } else {
            ReadmeChangeModel::Extended { text: trimmed_end_of(content) + footer_of(caption) }
        },
    }
}

/// Decides how to give the README `existing` (absent when there is no file)
/// the footer with `caption`: create it, append the footer after trimming
/// trailing whitespace, or leave it when the footer is already there.
pub fn plan_readme(existing: Option<String>, caption: &str) -> (r: ReadmeChange)
    ensures
        r@ == readme_change_of(opt_view(existing), caption@),
{
    match existing {
        None => {
            let mut text = String::from_str(README_TITLE);
            let f = footer(caption);
            text.append(f.as_str());
            ReadmeChange::Created { text }
        },
        Some(content) => {
            if contains_text(content.as_str(), FOOTER_MARKER) {
                ReadmeChange::Unchanged
            } else {
                let mut text = trim_trailing(content.as_str());
                let f = footer(caption);
                text.append(f.as_str());
                ReadmeChange::Extended { text }
            }
        },
    }
}

/// The footer is added at most once: a README that the workflow has created
/// or extended is left as it is by the next run, whatever its caption.
pub proof fn lemma_footer_added_once(existing: Option<Seq<char>>, caption: Seq<char>, next_caption: Seq<char>)
    ensures
        match readme_change_of(existing, caption) {
            ReadmeChangeModel::Created { text } => readme_change_of(Some(text), next_caption) == ReadmeChangeModel::Unchanged,
            ReadmeChangeModel::Extended { text } => readme_change_of(Some(text), next_caption) == ReadmeChangeModel::Unchanged,
            ReadmeChangeModel::Unchanged => true,
        },
{
    let before = match existing {
        None => README_TITLE@,
        Some(content) => trimmed_end_of(content),
    };
    let text = before + footer_of(caption);
    let at: int = (before.len() + FOOTER_OPENING@.len()) as int;
    assert(text.subrange(at, at + FOOTER_MARKER@.len()) =~= FOOTER_MARKER@);
    assert(occurs_at(text, FOOTER_MARKER@, at));
    assert(contains_seq(text, FOOTER_MARKER@));
}

} // verus!
