use vstd::prelude::*;

verus! {

/// A chat message as it travels from a sender through the channel to every client.
#[derive(Debug)]
pub struct ChannelMessage {
    pub from: String,
    pub body: String,
    /// Milliseconds since the UNIX epoch at which the server received the message.
    pub timestamp: i64,
}

impl Clone for ChannelMessage {
    fn clone(&self) -> (c: Self)
        ensures
            c.from@ == self.from@,
            c.body@ == self.body@,
            c.timestamp == self.timestamp,
    {
        ChannelMessage { from: self.from.clone(), body: self.body.clone(), timestamp: self.timestamp }
    }
}

impl ChannelMessage {
    /// A message from `from` with body `body`, received at `timestamp`.
    pub fn new(from: &str, body: String, timestamp: i64) -> (m: Self)
        ensures
            m.from@ == from@,
            m.body@ == body@,
            m.timestamp == timestamp,
    {
        ChannelMessage { from: from.to_owned(), body, timestamp }
    }
}

/// The current time in milliseconds since the UNIX epoch.
///
/// Calls chrono's `Utc::now` and `DateTime::timestamp_millis`. Trusted: a chrono
/// `DateTime` lies within chrono's date range, so its timestamp does too. Which
/// instant it is is the clock's and left unsaid.
#[verifier::external_body]
fn now_millis() -> (millis: i64)
    ensures
        in_chrono_range(millis as int),
{
    chrono::Utc::now().timestamp_millis()
}

/// Earliest timestamp, in milliseconds since the UNIX epoch, that chrono represents:
/// the start of year -262143.
pub const CHRONO_MIN_MILLIS: i64 = -8_334_601_228_800_000;

/// Latest timestamp, in milliseconds since the UNIX epoch, that chrono represents: the
/// last millisecond of year 262142.
pub const CHRONO_MAX_MILLIS: i64 = 8_210_266_876_799_999;

/// Timestamps that chrono turns into a date.
pub open spec fn in_chrono_range(millis: int) -> bool {
    CHRONO_MIN_MILLIS <= millis <= CHRONO_MAX_MILLIS
}

/// The offset, in seconds, of the machine's local time from UTC at the instant `millis`
/// milliseconds after the UNIX epoch; `None` outside chrono's date range.
///
/// Calls chrono's `DateTime::from_timestamp_millis`, then `TimeZone::offset_from_utc_datetime`
/// of the `Local` zone and `FixedOffset::local_minus_utc`. Trusted: `from_timestamp_millis`
/// gives `None` exactly outside years -262143 to 262142 (`CHRONO_MIN_MILLIS` to
/// `CHRONO_MAX_MILLIS`), and a `FixedOffset` lies strictly between -86400 and 86400
/// seconds. Which offset it is depends on the machine's time zone and is left unsaid.
#[verifier::external_body]
fn local_utc_offset(millis: i64) -> (offset: Option<i32>)
    ensures
        offset is Some <==> in_chrono_range(millis as int),
        offset matches Some(o) ==> -86400 < o < 86400,
{
    match chrono::DateTime::from_timestamp_millis(millis) {
        Some(t) => Some(chrono::TimeZone::offset_from_utc_datetime(&chrono::Local, &t.naive_utc()).local_minus_utc()),
        None => None,
    }
}

/// The second of the day, in local time, of the instant `millis` milliseconds after
/// the UNIX epoch, for a local time `offset` seconds ahead of UTC.
pub open spec fn local_second_of_day(millis: int, offset: int) -> int {
    (millis / 1000 + offset) % 86400
}

/// The ASCII digit of `n`, for `n` below ten.
pub open spec fn digit_char(n: int) -> char {
    (48 + n) as char
}

/// The wall-clock time `HH:MM` (24-hour, zero-padded) of the instant `millis`
/// milliseconds after the UNIX epoch, for a local time `offset` seconds ahead of UTC:
/// what chrono's `%H:%M` writes.
pub open spec fn clock_text(millis: int, offset: int) -> Seq<char> {
    let second = local_second_of_day(millis, offset);
    let hour = second / 3600;
    let minute = second % 3600 / 60;
    seq![digit_char(hour / 10), digit_char(hour % 10), ':', digit_char(minute / 10), digit_char(minute % 10)]
}

/// An ASCII digit.
pub open spec fn is_digit(c: char) -> bool {
    '0' <= c <= '9'
}

/// A wall-clock time written `HH:MM`, with an hour below 24 and a minute below 60.
pub open spec fn is_clock_time(s: Seq<char>) -> bool {
    &&& s.len() == 5
    &&& is_digit(s[0]) && is_digit(s[1]) && s[2] == ':' && is_digit(s[3]) && is_digit(s[4])
    &&& (s[0] as u32 - '0' as u32) * 10 + (s[1] as u32 - '0' as u32) < 24
    &&& (s[3] as u32 - '0' as u32) < 6
}

/// Every clock text is a well-formed `HH:MM` time.
pub proof fn lemma_clock_text_is_clock_time(millis: int, offset: int)
    ensures
        is_clock_time(clock_text(millis, offset)),
{
    let second = local_second_of_day(millis, offset);
    assert(0 <= second < 86400);
    let hour = second / 3600;
    let minute = second % 3600 / 60;
    assert(0 <= hour < 24);
    assert(0 <= minute < 60);
}

/// The wall-clock time `HH:MM` of the instant `millis` milliseconds after the UNIX
/// epoch, for a local time `offset` seconds ahead of UTC: `clock_text` as a `String`.
pub fn clock_time(millis: i64, offset: i32) -> (text: String)
    requires
        in_chrono_range(millis as int),
        -86400 < offset < 86400,
    ensures
        text@ == clock_text(millis as int, offset as int),
{
    // A multiple of a day (and of a second) large enough to make every sum non-negative.
    let shift: i128 = 8_640_000_000_000_000;
    let shifted: i128 = millis as i128 + shift + (offset as i128) * 1000;
    let second: i128 = (shifted / 1000) % 86400;
    proof {
        assert(shifted / 1000 == millis as int / 1000 + 8_640_000_000_000 + offset) by {
            vstd::arithmetic::div_mod::lemma_hoist_over_denominator(millis as int, 8_640_000_000_000 + offset as int, 1000);
        }
        assert(second == local_second_of_day(millis as int, offset as int)) by {
            vstd::arithmetic::div_mod::lemma_mod_multiples_vanish(100_000_000, millis as int / 1000 + offset as int, 86400);
        }
    }
    let hour: i128 = second / 3600;
    let minute: i128 = second % 3600 / 60;
    let digits = "0123456789";
    let colon = ":";
    proof {
        reveal_strlit("0123456789");
        reveal_strlit(":");
    }
    let mut text = String::new();
    text.append(digits.substring_char((hour / 10) as usize, (hour / 10 + 1) as usize));
    text.append(digits.substring_char((hour % 10) as usize, (hour % 10 + 1) as usize));
    text.append(colon);
    text.append(digits.substring_char((minute / 10) as usize, (minute / 10 + 1) as usize));
    text.append(digits.substring_char((minute % 10) as usize, (minute % 10 + 1) as usize));
    assert(text@ =~= clock_text(millis as int, offset as int));
    text
}

/// A message from `from` with body `body`, stamped with the current time.
pub fn stamp(from: &str, body: String) -> (m: ChannelMessage)
    ensures
        m.from@ == from@,
        m.body@ == body@,
        in_chrono_range(m.timestamp as int),
{
    ChannelMessage::new(from, body, now_millis())
}

/// What the client shows for one message: a panel titled with the sender that holds
/// the body on the left and the local time of the message on the right.
#[derive(Debug)]
pub struct MessageLayout {
    pub title: String,
    pub body: String,
    pub time: String,
}

/// The client's view of a chat message.
pub struct MessageView;

impl MessageView {
    /// Whether chrono has a date for `timestamp`, so that the message can be laid out
    /// (the client gives up with a panic on a message where it has none).
    pub fn is_displayable(timestamp: i64) -> (b: bool)
        ensures
            b == in_chrono_range(timestamp as int),
    {
        CHRONO_MIN_MILLIS <= timestamp && timestamp <= CHRONO_MAX_MILLIS
    }

    /// Lays a message out: titled with the sender, the body on the left, the local
    /// wall-clock time of the timestamp on the right.
    pub fn new(message: ChannelMessage) -> (l: MessageLayout)
        requires
            in_chrono_range(message.timestamp as int),
        ensures
            l.title@ == message.from@,
            l.body@ == message.body@,
            exists|offset: int|
                -86400 < offset < 86400 && l.time@ == #[trigger] clock_text(message.timestamp as int, offset),
    {
        let offset = local_utc_offset(message.timestamp).unwrap();
        let time = clock_time(message.timestamp, offset);
        MessageLayout { title: message.from, body: message.body, time }
    }
}

} // verus!
