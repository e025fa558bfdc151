//! The text of a republished status: the date, three flag markers and a
//! permalink to the selected post.

use crate::date::CalendarDate;
use crate::number::decimal_text;
use crate::number::digit_char;
use vstd::prelude::*;
use vstd::string::*;

verus! {

/// The parts of a status text that do not change from run to run.
#[derive(Debug, PartialEq, Eq)]
pub struct StatusTemplate {
    /// The flag glyph, written three times in a row.
    pub marker: String,
    /// The handle of the account whose posts are linked to.
    pub handle: String,
}

/// The flag marker that is used where none is configured: a white flag, a
/// zero-width joiner and the transgender symbol.
pub open spec fn default_marker() -> Seq<char> {
    seq!['\u{1f3f3}', '\u{200d}', '\u{26a7}']
}

/// The account handle that is used where none is configured.
pub open spec fn default_handle() -> Seq<char> {
    "smolrobots"@
}

/// The address of the post `id` of the account `handle`.
pub open spec fn permalink(handle: Seq<char>, id: u64) -> Seq<char> {
    "https://twitter.com/"@ + handle + "/status/"@ + decimal_text(id as nat)
}

/// The status text: the date as `DD/MM/YY`, a space, the marker three
/// times, a space, and the permalink.
pub open spec fn status_text(
    marker: Seq<char>,
    handle: Seq<char>,
    date: CalendarDate,
    id: u64,
) -> Seq<char> {
    date.spec_short_text() + seq![' '] + marker + marker + marker + seq![' '] + permalink(
        handle,
        id,
    )
}

/// The text of one digit.
fn digit_text(d: u8) -> (text: &'static str)
    requires
        d < 10,
    ensures
        text@ == seq![digit_char(d as nat)],
{
    proof {
        reveal_strlit("0");
        reveal_strlit("1");
        reveal_strlit("2");
        reveal_strlit("3");
        reveal_strlit("4");
        reveal_strlit("5");
        reveal_strlit("6");
        reveal_strlit("7");
        reveal_strlit("8");
        reveal_strlit("9");
    }
    let text = match d {
        0 => "0",
        1 => "1",
        2 => "2",
        3 => "3",
        4 => "4",
        5 => "5",
        6 => "6",
        7 => "7",
        8 => "8",
        _ => "9",
    };
    assert(text@ =~= seq![digit_char(d as nat)]);
    text
}

/// Writes `n` in base ten at the end of `out`.
pub fn append_decimal(out: &mut String, n: u64)
    ensures
        final(out)@ == old(out)@ + decimal_text(n as nat),
    decreases n,
{
    if n >= 10 {
        append_decimal(out, n / 10);
    }
    out.append(digit_text((n % 10) as u8));
    assert(final(out)@ =~= old(out)@ + decimal_text(n as nat));
}

/// Builds the address of the post `id` of the account `handle`.
pub fn permalink_of(handle: &str, id: u64) -> (link: String)
    ensures
        link@ == permalink(handle@, id),
{
    let mut link = String::from_str("https://twitter.com/");
    link.append(handle);
    link.append("/status/");
    append_decimal(&mut link, id);
    link
}

impl StatusTemplate {
    /// The template with the default marker and handle.
    pub fn default_template() -> (template: StatusTemplate)
        ensures
            template.marker@ == default_marker(),
            template.handle@ == default_handle(),
    {
        proof {
            reveal_strlit("\u{1f3f3}\u{200d}\u{26a7}");
        }
        let marker = String::from_str("\u{1f3f3}\u{200d}\u{26a7}");
        assert(marker@ =~= default_marker());
        StatusTemplate { marker, handle: String::from_str("smolrobots") }
    }

    /// Composes the status text for the post `id` on the day `date`.
    pub fn compose_status(&self, date: &CalendarDate, id: u64) -> (text: String)
        requires
            date.wf(),
        ensures
            text@ == status_text(self.marker@, self.handle@, *date, id),
    {
        let mut text = date.short_text();
        proof {
            reveal_strlit(" ");
        }
        text.append(" ");
        text.append(self.marker.as_str());
        text.append(self.marker.as_str());
        text.append(self.marker.as_str());
        text.append(" ");
        let link = permalink_of(self.handle.as_str(), id);
        text.append(link.as_str());
        assert(text@ =~= status_text(self.marker@, self.handle@, *date, id));
        text
    }

    /// Composes the status text for the post `id` on the day in UTC of the
    /// moment `seconds` seconds after the start of 1970; `None` where the
    /// calendar does not reach that far.
    pub fn compose_status_at(&self, seconds: i64, id: u64) -> (text: Option<String>)
        ensures
            match CalendarDate::spec_of_unix_seconds(seconds) {
                Some(date) => text matches Some(t) && t@ == status_text(
                    self.marker@,
                    self.handle@,
                    date,
                    id,
                ),
                None => text is None,
            },
    {
        match CalendarDate::of_unix_seconds(seconds) {
            Some(date) => Some(self.compose_status(&date, id)),
            None => None,
        }
    }
}

} // verus!
