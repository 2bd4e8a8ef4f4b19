//! Search over the message log: from the fields of a search request to the
//! statement and the arguments that the store is asked with.

use crate::time::Timestamp;
use vstd::prelude::*;
use vstd::string::StringExecFns;

verus! {

/// Messages per page where the request names no number.
pub const DEFAULT_PAGE_SIZE: u32 = 50;

/// A search request, as it arrives.
#[derive(Debug, Clone, PartialEq, Eq)]
pub struct MessageQuery {
    pub per_page: Option<u32>,
    pub page: Option<u32>,
    pub player_id: Option<u32>,
    /// Only messages after this date, written as in RFC 2822.
    pub after: Option<String>,
    /// Only messages before this date, written as in RFC 2822.
    pub before: Option<String>,
}

/// A value bound to a placeholder of the statement.
#[derive(Debug, Clone, Copy, PartialEq, Eq, Structural)]
pub enum QueryArg {
    Player(u32),
    Time(Timestamp),
    /// The page size as the request gave it; absent, it is bound as null.
    Limit(Option<u32>),
    Offset(u32),
}

/// A statement and the values for its placeholders, `$1` first.
#[derive(Debug, Clone, PartialEq, Eq)]
pub struct MessageSelect {
    pub sql: String,
    pub args: Vec<QueryArg>,
}

/// Why a search request was refused.
#[derive(Debug, Clone, Copy, PartialEq, Eq, Structural)]
pub enum QueryError {
    /// Page number times page size is more than the store can skip.
    OffsetOverflow,
}

/// The time that an RFC 2822 date names, in milliseconds since the epoch,
/// or `None` where the text is no such date.
pub uninterp spec fn rfc2822_millis(text: Seq<char>) -> Option<i64>;

/// Calls `chrono::DateTime::parse_from_rfc2822` and, on success,
/// `DateTime::timestamp_millis` on what it returned.
///
/// Believed, not proved: the result depends on the text alone. The parser
/// reads no clock, locale or time zone database: the offset is part of the
/// text, and the timestamp of the parsed value is counted in UTC.
#[verifier::external_body]
fn parse_rfc2822(text: &str) -> (millis: Option<i64>)
    ensures
        millis == rfc2822_millis(text@),
{
    match chrono::DateTime::parse_from_rfc2822(text) {
        Ok(parsed) => Some(parsed.timestamp_millis()),
        Err(_) => None,
    }
}

/// The time a date filter names, where the text is a date.
pub open spec fn filter_time(text: Option<String>) -> Option<Timestamp> {
    match text {
        Some(text) => match rfc2822_millis(text@) {
            Some(millis) => Some(Timestamp { millis }),
            None => None,
        },
        None => None,
    }
}

/// Reads a date filter. A filter that is absent, or is no RFC 2822 date,
/// filters nothing.
pub fn parse_filter_time(text: &Option<String>) -> (time: Option<Timestamp>)
    ensures
        time == filter_time(*text),
{
    match text {
        Some(text) => match parse_rfc2822(text.as_str()) {
            Some(millis) => Some(Timestamp { millis }),
            None => None,
        },
        None => None,
    }
}

/// The text of the `n`-th placeholder.
pub open spec fn placeholder_text(n: int) -> Seq<char> {
    if n == 1 {
        "$1"@
    } else if n == 2 {
        "$2"@
    } else if n == 3 {
        "$3"@
    } else if n == 4 {
        "$4"@
    } else {
        "$5"@
    }
}

/// How many placeholders the filters take.
pub open spec fn filter_args(player: bool, after: bool, before: bool) -> int {
    (if player { 1int } else { 0 }) + (if after { 1int } else { 0 }) + (if before { 1int } else { 0 })
}

/// The condition on the message's time, its first placeholder being the
/// `n`-th; empty where neither bound is given.
pub open spec fn time_condition(after: bool, before: bool, n: int) -> Seq<char> {
    if after && before {
        "time between date("@ + placeholder_text(n) + ") and date("@ + placeholder_text(n + 1)
            + ")"@
    } else if after {
        "date(time) > date("@ + placeholder_text(n) + ")"@
    } else if before {
        "date(time) < date("@ + placeholder_text(n) + ")"@
    } else {
        Seq::empty()
    }
}

/// The `where` part of the statement; empty where nothing is filtered.
pub open spec fn where_text(player: bool, after: bool, before: bool) -> Seq<char> {
    if player && (after || before) {
        "where "@ + "player_id = $1"@ + " and "@ + time_condition(after, before, 2)
    } else if player {
        "where "@ + "player_id = $1"@
    } else if after || before {
        "where "@ + time_condition(after, before, 1)
    } else {
        Seq::empty()
    }
}

/// The statement: newest messages first, one page of them.
pub open spec fn select_text(player: bool, after: bool, before: bool) -> Seq<char> {
    "select * from messages "@ + where_text(player, after, before) + " order by id desc limit "@
        + placeholder_text(filter_args(player, after, before) + 1) + " offset "@ + placeholder_text(
        filter_args(player, after, before) + 2,
    )
}

/// The values for the filters' placeholders, in the order of the
/// placeholders.
pub open spec fn filter_values(
    player_id: Option<u32>,
    after: Option<Timestamp>,
    before: Option<Timestamp>,
) -> Seq<QueryArg> {
    (match player_id {
        Some(id) => seq![QueryArg::Player(id)],
        None => Seq::empty(),
    }) + (match after {
        Some(time) => seq![QueryArg::Time(time)],
        None => Seq::empty(),
    }) + (match before {
        Some(time) => seq![QueryArg::Time(time)],
        None => Seq::empty(),
    })
}

/// The page size that applies.
pub open spec fn page_size(per_page: Option<u32>) -> int {
    match per_page {
        Some(size) => size as int,
        None => DEFAULT_PAGE_SIZE as int,
    }
}

/// How many messages to skip.
pub open spec fn page_offset(per_page: Option<u32>, page: Option<u32>) -> int {
    (match page {
        Some(page) => page as int,
        None => 0,
    }) * page_size(per_page)
}

fn placeholder(n: u8) -> (text: &'static str)
    requires
        1 <= n <= 5,
    ensures
        text@ == placeholder_text(n as int),
{
    if n == 1 {
        "$1"
    } else if n == 2 {
        "$2"
    } else if n == 3 {
        "$3"
    } else if n == 4 {
        "$4"
    } else {
        "$5"
    }
}

fn time_condition_text(after: bool, before: bool, n: u8) -> (text: String)
    requires
        1 <= n <= 2,
    ensures
        text@ == time_condition(after, before, n as int),
{
    if after && before {
        let mut text = String::from_str("time between date(");
        text.append(placeholder(n));
        text.append(") and date(");
        text.append(placeholder(n + 1));
        text.append(")");
        text
    } else if after {
        let mut text = String::from_str("date(time) > date(");
        text.append(placeholder(n));
        text.append(")");
        text
    } else if before {
        let mut text = String::from_str("date(time) < date(");
        text.append(placeholder(n));
        text.append(")");
        text
    } else {
        String::new()
    }
}

/// Builds the statement and its arguments from the fields of a request,
/// the date filters already read.
///
/// The filters come first, in the order player, after, before, each with a
/// placeholder of its own; then the page size and the offset. The request is
/// refused where the offset does not fit.
pub fn select_messages(
    player_id: Option<u32>,
    after: Option<Timestamp>,
    before: Option<Timestamp>,
    per_page: Option<u32>,
    page: Option<u32>,
) -> (plan: Result<MessageSelect, QueryError>)
    ensures
        match plan {
            Ok(select) => {
                &&& page_offset(per_page, page) <= u32::MAX
                &&& select.sql@ == select_text(
                    player_id.is_some(),
                    after.is_some(),
                    before.is_some(),
                )
                &&& select.args@ == filter_values(player_id, after, before) + seq![
                    QueryArg::Limit(per_page),
                    QueryArg::Offset(page_offset(per_page, page) as u32),
                ]
            },
            Err(error) => error == QueryError::OffsetOverflow && page_offset(per_page, page)
                > u32::MAX,
        },
{
    let size: u32 = match per_page {
        Some(size) => size,
        None => DEFAULT_PAGE_SIZE,
    };
    let number: u32 = match page {
        Some(page) => page,
        None => 0,
    };
    let offset: u32 = match number.checked_mul(size) {
        Some(offset) => offset,
        None => {
            return Err(QueryError::OffsetOverflow);
        },
    };
    let mut args: Vec<QueryArg> = Vec::new();
    let mut used: u8 = 0;
    let mut where_part = String::new();
    if let Some(id) = player_id {
        where_part.append("where ");
        where_part.append("player_id = $1");
        args.push(QueryArg::Player(id));
        used = 1;
    }
    if after.is_some() || before.is_some() {
        if used == 0 {
            where_part.append("where ");
        } else {
            where_part.append(" and ");
        }
        let condition = time_condition_text(after.is_some(), before.is_some(), used + 1);
        where_part.append(condition.as_str());
        if let Some(time) = after {
            args.push(QueryArg::Time(time));
            used = used + 1;
        }
        if let Some(time) = before {
            args.push(QueryArg::Time(time));
            used = used + 1;
        }
    }
    assert(where_part@ =~= where_text(player_id.is_some(), after.is_some(), before.is_some()));
    assert(used == filter_args(player_id.is_some(), after.is_some(), before.is_some()));
    assert(args@ =~= filter_values(player_id, after, before));
    let mut sql = String::from_str("select * from messages ");
    sql.append(where_part.as_str());
    sql.append(" order by id desc limit ");
    sql.append(placeholder(used + 1));
    sql.append(" offset ");
    sql.append(placeholder(used + 2));
    args.push(QueryArg::Limit(per_page));
    args.push(QueryArg::Offset(offset));
    assert(args@ =~= filter_values(player_id, after, before) + seq![
        QueryArg::Limit(per_page),
        QueryArg::Offset(offset),
    ]);
    Ok(MessageSelect { sql, args })
}

/// Builds the statement and its arguments for a search request. A date
/// filter that cannot be read is left out, as if it had not been given.
pub fn plan_messages(query: &MessageQuery) -> (plan: Result<MessageSelect, QueryError>)
    ensures
        match plan {
            Ok(select) => {
                &&& page_offset(query.per_page, query.page) <= u32::MAX
                &&& select.sql@ == select_text(
                    query.player_id.is_some(),
                    filter_time(query.after).is_some(),
                    filter_time(query.before).is_some(),
                )
                &&& select.args@ == filter_values(
                    query.player_id,
                    filter_time(query.after),
                    filter_time(query.before),
                ) + seq![
                    QueryArg::Limit(query.per_page),
                    QueryArg::Offset(page_offset(query.per_page, query.page) as u32),
                ]
            },
            Err(error) => error == QueryError::OffsetOverflow && page_offset(
                query.per_page,
                query.page,
            ) > u32::MAX,
        },
{
    let after = parse_filter_time(&query.after);
    let before = parse_filter_time(&query.before);
    select_messages(query.player_id, after, before, query.per_page, query.page)
}

/// The pattern that matches every alias holding `part`; with no part given,
/// every alias.
pub fn alias_pattern(part: Option<&str>) -> (pattern: String)
    ensures
        pattern@ == "%"@ + (match part {
            Some(part) => part@,
            None => Seq::empty(),
        }) + "%"@,
{
    let mut pattern = String::from_str("%");
    if let Some(part) = part {
        pattern.append(part);
    }
    pattern.append("%");
    pattern
}

} // verus!
