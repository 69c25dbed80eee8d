//! Rendering issues as HTML.

use crate::reconciler::ClassifiedView;
use crate::state::{Stamps, Timestamp};
use crate::text::{
    chars_of, find, find_from, first_occurrence, first_occurrence_from, join, joined, occurs_at,
    occurs_in, replace, replaced, split, split_on, starts_with,
};
use crate::time::{instant_of, parse_rfc3339, rfc3339_of, to_rfc3339};
use vstd::prelude::*;

verus! {

/// The page up to the list of unseen issues.
pub const PAGE_HEAD: &'static str =
    "<!DOCTYPE html>\n<html>\n<head>\n    <meta charset=\"UTF-8\">\n    <title>Work Driver Issues</title>\n    <style>\n        body {\n            font-family: -apple-system, BlinkMacSystemFont, \"Segoe UI\", Helvetica, Arial, sans-serif;\n            max-width: 800px;\n            margin: 40px auto;\n            padding: 20px;\n            line-height: 1.6;\n        }\n        h1 {\n            color: #333;\n            border-bottom: 2px solid #e1e4e8;\n            padding-bottom: 10px;\n        }\n        ul {\n            list-style-type: none;\n            padding-left: 0;\n        }\n        li {\n            padding: 10px;\n            margin: 8px 0;\n            background: #f6f8fa;\n            border-radius: 6px;\n            border-left: 4px solid #0969da;\n        }\n        a {\n            color: #0969da;\n            text-decoration: none;\n        }\n        a:hover {\n            text-decoration: underline;\n        }\n    </style>\n</head>\n<body>\n    <h1>Work Driver Issues</h1>\n    <ul>\n        ";

/// The page between the unseen and the acknowledged issues.
pub const PAGE_MIDDLE: &'static str = "\n    </ul>\n    <h2>Acknowledged</h2>\n    <ul>\n        ";

/// The page after the list of acknowledged issues.
pub const PAGE_FOOT: &'static str = "\n    </ul>\n</body>\n</html>";

/// What separates two items of a list.
pub const ITEM_BREAK: &'static str = "\n        ";

/// The number of the pull request that `issue` is about: the text between
/// the leading `PR #` and the first ` '`. Issues of another shape have none.
pub open spec fn pull_request_number(issue: Seq<char>) -> Option<Seq<char>> {
    if occurs_at(issue, "PR #"@, 0) {
        match first_occurrence(issue, " '"@) {
            Some(end) => Some(issue.subrange(4, end)),
            None => None,
        }
    } else {
        None
    }
}

/// The bracketed metadata of a flag issue: the text between the first ` [`
/// and the first `]`, for an issue that starts with `Flag '` and has the
/// one before the other. Issues of another shape have none.
pub open spec fn flag_metadata(issue: Seq<char>) -> Option<Seq<char>> {
    if occurs_at(issue, "Flag '"@, 0) {
        match (first_occurrence(issue, " ["@), first_occurrence(issue, "]"@)) {
            (Some(start), Some(end)) => if start + 2 <= end {
                Some(issue.subrange(start + 2, end))
            } else {
                None
            },
            _ => None,
        }
    } else {
        None
    }
}

/// A pull request issue with every mention of `PR #<number>` linked to the
/// pull request.
pub open spec fn linked_pull_request(issue: Seq<char>, number: Seq<char>) -> Seq<char> {
    "<li>"@ + replaced(
        issue,
        "PR #"@ + number,
        "<a href=\"https://github.com/figma/figma/pull/"@ + number + "\">PR #"@ + number + "</a>"@,
    ) + "</li>"@
}

/// The address of a flag's targeting page.
pub open spec fn flag_address(project: Seq<char>, flag: Seq<char>, environment: Seq<char>) -> Seq<
    char,
> {
    "https://app.launchdarkly.com/projects/"@ + project + "/flags/"@ + flag
        + "/targeting?env=production&env=staging&selected-env="@ + environment
}

/// A flag issue without its bracketed metadata, linked to the flag's
/// targeting page. `parts` are the three fields of the metadata.
pub open spec fn linked_flag(issue: Seq<char>, metadata: Seq<char>, parts: Seq<Seq<char>>) -> Seq<
    char,
> {
    "<li><a href=\""@ + flag_address(parts[0], parts[1], parts[2]) + "\">"@ + replaced(
        issue,
        " ["@ + metadata + "]"@,
        Seq::<char>::empty(),
    ) + "</a></li>"@
}

/// The list item for `issue`: a pull request issue links its number, a flag
/// issue whose metadata has the three fields `project:flag:environment`
/// links to the flag, and any other issue is shown as it is.
pub open spec fn issue_as_html(issue: Seq<char>) -> Seq<char> {
    if let Some(number) = pull_request_number(issue) {
        linked_pull_request(issue, number)
    } else if let Some(metadata) = flag_metadata(issue) {
        if split_on(metadata, ':').len() == 3 {
            linked_flag(issue, metadata, split_on(metadata, ':'))
        } else {
            "<li>"@ + issue + "</li>"@
        }
    } else {
        "<li>"@ + issue + "</li>"@
    }
}

/// In an issue that starts with `PR #`, the first ` '` comes after that
/// prefix.
proof fn lemma_quote_after_prefix(issue: Seq<char>, end: int)
    requires
        occurs_at(issue, "PR #"@, 0),
        occurs_at(issue, " '"@, end),
    ensures
        4 <= end,
{
    reveal_strlit("PR #");
    reveal_strlit(" '");
    let prefix = "PR #"@;
    let quote = " '"@;
    assert(issue[0] == prefix[0] && issue[1] == prefix[1] && issue[2] == prefix[2] && issue[3]
        == prefix[3]);
    assert(issue[end] == quote[0] && issue[end + 1] == quote[1]);
}

/// The list item for a pull request issue whose number ends at `end`.
fn format_pull_request(issue: &str, end: usize) -> (html: String)
    requires
        4 <= end <= issue@.len(),
    ensures
        html@ == linked_pull_request(issue@, issue@.subrange(4, end as int)),
{
    let number = issue.substring_char(4, end);
    let mut mention = String::from_str("PR #");
    mention.append(number);
    let mut link = String::from_str("<a href=\"https://github.com/figma/figma/pull/");
    link.append(number);
    link.append("\">PR #");
    link.append(number);
    link.append("</a>");
    let mut html = String::from_str("<li>");
    html.append(replace(issue, mention.as_str(), link.as_str()).as_str());
    html.append("</li>");
    html
}

/// The list item for a flag issue with the given metadata in three fields.
fn format_flag(issue: &str, metadata: &str, parts: &Vec<String>) -> (html: String)
    requires
        parts.len() == 3,
    ensures
        html@ == linked_flag(issue@, metadata@, parts.deep_view()),
{
    let mut bracketed = String::from_str(" [");
    bracketed.append(metadata);
    bracketed.append("]");
    let mut html = String::from_str("<li><a href=\"");
    html.append("https://app.launchdarkly.com/projects/");
    html.append(parts[0].as_str());
    html.append("/flags/");
    html.append(parts[1].as_str());
    html.append("/targeting?env=production&env=staging&selected-env=");
    html.append(parts[2].as_str());
    html.append("\">");
    proof {
        reveal_strlit("");
        assert(""@ == Seq::<char>::empty());
    }
    html.append(replace(issue, bracketed.as_str(), "").as_str());
    html.append("</a></li>");
    html
}

/// The list item for an issue that links to nothing.
fn format_plain(issue: &str) -> (html: String)
    ensures
        html@ == "<li>"@ + issue@ + "</li>"@,
{
    let mut html = String::from_str("<li>");
    html.append(issue);
    html.append("</li>");
    html
}

/// Renders one issue as an HTML list item.
pub fn format_issue_as_html(issue: &str) -> (html: String)
    ensures
        html@ == issue_as_html(issue@),
{
    if starts_with(issue, "PR #") {
        match find(issue, " '") {
            Some(end) => {
                proof {
                    crate::text::lemma_first_occurrence(issue@, " '"@);
                    lemma_quote_after_prefix(issue@, end as int);
                }
                return format_pull_request(issue, end);
            },
            None => {},
        }
    }
    if starts_with(issue, "Flag '") {
        match (find(issue, " ["), find(issue, "]")) {
            (Some(start), Some(end)) => {
                proof {
                    crate::text::lemma_first_occurrence(issue@, " ["@);
                    crate::text::lemma_first_occurrence(issue@, "]"@);
                    reveal_strlit(" [");
                    reveal_strlit("]");
                }
                if start <= end && 2 <= end - start {
                    let metadata = issue.substring_char(start + 2, end);
                    let parts = split(metadata, ':');
                    if parts.len() == 3 {
                        return format_flag(issue, metadata, &parts);
                    }
                }
            },
            _ => {},
        }
    }
    format_plain(issue)
}

/// What `html_escape::encode_text` writes for one character.
pub open spec fn escaped_char(c: char) -> Seq<char> {
    if c == '&' {
        "&amp;"@
    } else if c == '<' {
        "&lt;"@
    } else if c == '>' {
        "&gt;"@
    } else {
        seq![c]
    }
}

/// `text` with `&`, `<` and `>` written as character references.
pub open spec fn escaped(text: Seq<char>) -> Seq<char>
    decreases text.len(),
{
    if text.len() == 0 {
        Seq::<char>::empty()
    } else {
        escaped(text.drop_last()) + escaped_char(text.last())
    }
}

/// `html_escape::encode_text`: the text with each `&`, `<` and `>` replaced
/// by `&amp;`, `&lt;` and `&gt;`, and every other character kept.
#[verifier::external_body]
fn encode_text(text: &str) -> (out: String)
    ensures
        out@ == escaped(text@),
{
    html_escape::encode_text(text).into_owned()
}

/// The time shown for an instant: its RFC 3339 notation, or nothing for an
/// instant that has none.
pub open spec fn timestamp_text(at: Timestamp) -> Seq<char> {
    match rfc3339_of(at) {
        Some(text) => text,
        None => Seq::<char>::empty(),
    }
}

/// The time shown with an issue: when an alert last fired for it, or `now`
/// where none has.
pub open spec fn shown_at(
    timestamps: Map<Seq<char>, Timestamp>,
    issue: Seq<char>,
    now: Timestamp,
) -> Timestamp {
    if timestamps.contains_key(issue) {
        timestamps[issue]
    } else {
        now
    }
}

/// One line of a list: the issue as a list item, and a hidden element that
/// carries the issue's text and the time as `time` writes it.
pub open spec fn item_of(issue: Seq<char>, time: Seq<char>) -> Seq<char> {
    issue_as_html(issue) + " <span style=\"display:none\" class=\"timestamp\" data-issue=\""@
        + escaped(issue) + "\">"@ + time + "</span>"@
}

/// The lines of a list, one for each issue.
pub open spec fn items_of(
    issues: Seq<Seq<char>>,
    timestamps: Map<Seq<char>, Timestamp>,
    now: Timestamp,
) -> Seq<Seq<char>> {
    Seq::new(
        issues.len(),
        |i: int| item_of(issues[i], timestamp_text(shown_at(timestamps, issues[i], now))),
    )
}

/// The page for a classified poll: the unseen issues in the first list, the
/// acknowledged ones in the second.
pub open spec fn page_of(
    unseen: Seq<Seq<char>>,
    acknowledged: Seq<Seq<char>>,
    timestamps: Map<Seq<char>, Timestamp>,
    now: Timestamp,
) -> Seq<char> {
    PAGE_HEAD@ + joined(items_of(unseen, timestamps, now), ITEM_BREAK@) + PAGE_MIDDLE@ + joined(
        items_of(acknowledged, timestamps, now),
        ITEM_BREAK@,
    ) + PAGE_FOOT@
}

/// Writes one line of a list for an issue and the time to show with it.
pub fn format_item(issue: &str, time: &str) -> (item: String)
    ensures
        item@ == item_of(issue@, time@),
{
    let mut item = format_issue_as_html(issue);
    item.append(" <span style=\"display:none\" class=\"timestamp\" data-issue=\"");
    item.append(encode_text(issue).as_str());
    item.append("\">");
    item.append(time);
    item.append("</span>");
    item
}

/// Writes an instant in RFC 3339 notation, or as nothing where it has none.
pub fn format_timestamp(at: Timestamp) -> (text: String)
    ensures
        text@ == timestamp_text(at),
{
    match to_rfc3339(at) {
        Some(text) => text,
        None => String::new(),
    }
}

/// Writes the lines of a list.
fn write_items(issues: &Vec<String>, timestamps: &Stamps, now: Timestamp) -> (items: Vec<String>)
    ensures
        items.deep_view() == items_of(issues.deep_view(), timestamps@, now),
{
    let mut items: Vec<String> = Vec::new();
    let mut i: usize = 0;
    while i < issues.len()
        invariant
            i <= issues.len(),
            items.len() == i,
            forall|j: int|
                0 <= j < i ==> (#[trigger] items[j])@ == item_of(
                    issues[j]@,
                    timestamp_text(shown_at(timestamps@, issues[j]@, now)),
                ),
        decreases issues.len() - i,
    {
        let at = match timestamps.get(issues[i].as_str()) {
            Some(at) => at,
            None => now,
        };
        items.push(format_item(issues[i].as_str(), format_timestamp(at).as_str()));
        i += 1;
    }
    items
}

/// Renders the page for a classified poll. Each issue is shown with the
/// time of its last alert as `timestamps` records it, or with `now`.
pub fn generate_html(view: &ClassifiedView, timestamps: &Stamps, now: Timestamp) -> (page: String)
    ensures
        page@ == page_of(
            view.unseen.deep_view(),
            view.acknowledged.deep_view(),
            timestamps@,
            now,
        ),
{
    let unseen = write_items(&view.unseen, timestamps, now);
    let acknowledged = write_items(&view.acknowledged, timestamps, now);
    let mut page = String::from_str(PAGE_HEAD);
    page.append(join(&unseen, ITEM_BREAK).as_str());
    page.append(PAGE_MIDDLE);
    page.append(join(&acknowledged, ITEM_BREAK).as_str());
    page.append(PAGE_FOOT);
    page
}

/// A line without the carriage return at its end, if it has one.
pub open spec fn without_return(line: Seq<char>) -> Seq<char> {
    if line.len() > 0 && line.last() == '\r' {
        line.drop_last()
    } else {
        line
    }
}

/// The test of `lines_of` for a line that a line feed ends.
pub open spec fn strip_return() -> spec_fn(Seq<char>) -> Seq<char> {
    |line: Seq<char>| without_return(line)
}

/// The lines of a text. A line ends at a line feed, or at a carriage return
/// followed by one; the last line needs no line ending.
pub open spec fn lines_of(content: Seq<char>) -> Seq<Seq<char>> {
    let pieces = split_on(content, '\n');
    let ended = pieces.drop_last().map_values(strip_return());
    if pieces.last().len() == 0 {
        ended
    } else {
        ended.push(pieces.last())
    }
}

/// The issue and the time that a line of a rendered page carries: for a
/// line with a timestamp element, the text of the first `data-issue`
/// attribute up to the next quotation mark, and the text between the next
/// `>` and the `<` after it.
pub open spec fn carried_by(line: Seq<char>) -> Option<(Seq<char>, Seq<char>)> {
    if !occurs_in(line, "class=\"timestamp\""@) {
        None
    } else if let Some(start) = first_occurrence(line, "data-issue=\""@) {
        if let Some(issue_end) = first_occurrence_from(line, "\""@, start + 12) {
            if let Some(opened) = first_occurrence_from(line, ">"@, start) {
                if let Some(closed) = first_occurrence_from(line, "<"@, opened + 1) {
                    Some((line.subrange(start + 12, issue_end), line.subrange(opened + 1, closed)))
                } else {
                    None
                }
            } else {
                None
            }
        } else {
            None
        }
    } else {
        None
    }
}

/// The times that the lines of a rendered page carry, by issue. A line
/// whose time is not in RFC 3339 notation carries none; of two lines for
/// one issue the later counts.
pub open spec fn times_in(lines: Seq<Seq<char>>) -> Map<Seq<char>, Timestamp>
    decreases lines.len(),
{
    if lines.len() == 0 {
        Map::empty()
    } else {
        let before = times_in(lines.drop_last());
        match carried_by(lines.last()) {
            Some((issue, time)) => match instant_of(time) {
                Some(at) => before.insert(issue, at),
                None => before,
            },
            None => before,
        }
    }
}

/// Splits a text into its lines.
pub fn lines(content: &str) -> (found: Vec<String>)
    ensures
        found.deep_view() == lines_of(content@),
{
    let pieces = split(content, '\n');
    let ghost models = split_on(content@, '\n');
    assert(models.len() > 0) by {
        crate::text::lemma_split_not_empty(content@, '\n');
    }
    let mut found: Vec<String> = Vec::new();
    let mut i: usize = 0;
    while i + 1 < pieces.len()
        invariant
            models == pieces.deep_view(),
            models.len() > 0,
            i + 1 <= pieces.len(),
            found.len() == i,
            forall|j: int| 0 <= j < i ==> (#[trigger] found[j])@ == without_return(models[j]),
        decreases pieces.len() - i,
    {
        let piece = pieces[i].as_str();
        let chars = chars_of(piece);
        let line = if chars.len() > 0 && chars[chars.len() - 1] == '\r' {
            piece.substring_char(0, chars.len() - 1).to_string()
        } else {
            piece.to_string()
        };
        found.push(line);
        i += 1;
    }
    let last = pieces[pieces.len() - 1].as_str();
    if last.unicode_len() > 0 {
        found.push(last.to_string());
    }
    found
}

/// Reads the issue and the time that a line of a rendered page carries.
pub fn read_item(line: &str) -> (found: Option<(String, String)>)
    ensures
        match found {
            Some((issue, time)) => carried_by(line@) == Some((issue@, time@)),
            None => carried_by(line@) is None,
        },
{
    let chars = chars_of(line);
    let marker = chars_of("class=\"timestamp\"");
    proof {
        crate::text::lemma_first_occurrence(line@, "class=\"timestamp\""@);
        reveal_strlit("data-issue=\"");
        reveal_strlit("\"");
        reveal_strlit(">");
        reveal_strlit("<");
    }
    if find_from(&chars, &marker, 0).is_none() {
        return None;
    }
    let start = match find_from(&chars, &chars_of("data-issue=\""), 0) {
        Some(start) => start,
        None => {
            return None;
        },
    };
    proof {
        crate::text::lemma_first_occurrence_from(line@, "data-issue=\""@, 0);
    }
    let issue_end = match find_from(&chars, &chars_of("\""), start + 12) {
        Some(issue_end) => issue_end,
        None => {
            return None;
        },
    };
    let opened = match find_from(&chars, &chars_of(">"), start) {
        Some(opened) => opened,
        None => {
            return None;
        },
    };
    proof {
        crate::text::lemma_first_occurrence_from(line@, "\""@, start + 12);
        crate::text::lemma_first_occurrence_from(line@, ">"@, start as int);
    }
    let closed = match find_from(&chars, &chars_of("<"), opened + 1) {
        Some(closed) => closed,
        None => {
            return None;
        },
    };
    proof {
        crate::text::lemma_first_occurrence_from(line@, "<"@, opened + 1);
    }
    let issue = line.substring_char(start + 12, issue_end).to_string();
    let time = line.substring_char(opened + 1, closed).to_string();
    Some((issue, time))
}

/// Reads back the times of the last alerts from a rendered page.
pub fn parse_existing_timestamps(content: &str) -> (timestamps: Stamps)
    ensures
        timestamps@ == times_in(lines_of(content@)),
{
    let found = lines(content);
    let mut timestamps = Stamps::new();
    let mut i: usize = 0;
    while i < found.len()
        invariant
            i <= found.len(),
            timestamps@ == times_in(found.deep_view().take(i as int)),
        decreases found.len() - i,
    {
        assert(found.deep_view().take(i + 1).drop_last() == found.deep_view().take(i as int));
        match read_item(found[i].as_str()) {
            Some((issue, time)) => match parse_rfc3339(time.as_str()) {
                Some(at) => {
                    timestamps = timestamps.with(issue, at);
                },
                None => {},
            },
            None => {},
        }
        i += 1;
    }
    assert(found.deep_view().take(i as int) == found.deep_view());
    timestamps
}

} // verus!
