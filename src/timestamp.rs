//! Rendering of instants as the chat platform's timestamp markup, which each reader's
//! client shows in their own time zone.
use vstd::prelude::*;
use crate::decimal::{decimal, push_decimal};

verus! {

/// The format in which you want the timestamp to be generated.
#[derive(Clone, Copy, Debug, PartialEq, Eq, Structural)]
pub enum Format {
    ShortTime,
    LongTime,
    ShortDate,
    LongDate,
    LongDateShortTime,
    LongDateDayAndShortTime,
    Relative,
}

impl Format {
    /// The letter that selects this format in the markup.
    pub open spec fn letter(self) -> char {
        match self {
            Format::ShortTime => 't',
            Format::LongTime => 'T',
            Format::ShortDate => 'd',
            Format::LongDate => 'D',
            Format::LongDateShortTime => 'f',
            Format::LongDateDayAndShortTime => 'F',
            Format::Relative => 'R',
        }
    }

    /// The letter that selects this format in the markup, as a string.
    pub fn to_string(&self) -> (r: String)
        ensures
            r@ == seq![self.letter()],
    {
        proof {
            reveal_strlit("t");
            reveal_strlit("T");
            reveal_strlit("d");
            reveal_strlit("D");
            reveal_strlit("f");
            reveal_strlit("F");
            reveal_strlit("R");
        }
        let letter = match self {
            Format::ShortTime => "t",
            Format::LongTime => "T",
            Format::ShortDate => "d",
            Format::LongDate => "D",
            Format::LongDateShortTime => "f",
            Format::LongDateDayAndShortTime => "F",
            Format::Relative => "R",
        };
        letter.to_owned()
    }
}

/// An instant, as whole seconds since the Unix epoch.
#[derive(Clone, Copy, Debug, PartialEq, Eq, Structural)]
pub struct Timestamp {
    pub unix_seconds: i64,
}

impl Timestamp {
    pub fn from_unix_timestamp(unix_seconds: i64) -> (r: Timestamp)
        ensures
            r.unix_seconds == unix_seconds,
    {
        Timestamp { unix_seconds }
    }

    pub fn unix_timestamp(&self) -> (r: i64)
        ensures
            r == self.unix_seconds,
    {
        self.unix_seconds
    }
}

/// The markup for an instant `epoch` seconds after the Unix epoch: `<t:EPOCH:LETTER>`.
pub open spec fn timestamp_markup(epoch: int, format: Format) -> Seq<char> {
    "<t:"@ + decimal(epoch) + ":"@ + seq![format.letter()] + ">"@
}

pub trait TimestampExt {
    /// Converts a timestamp into the platform's timestamp markup.
    fn to_discord_timestamp(&self, format: Format) -> String;
}

impl TimestampExt for Timestamp {
    fn to_discord_timestamp(&self, format: Format) -> (r: String)
        ensures
            r@ == timestamp_markup(self.unix_seconds as int, format),
    {
        let epoch = self.unix_timestamp();
        let format_string = format.to_string();
        let mut markup = "<t:".to_owned();
        push_decimal(&mut markup, epoch);
        markup.append(":");
        markup.append(format_string.as_str());
        markup.append(">");
        assert(markup@ =~= timestamp_markup(epoch as int, format));
        markup
    }
}

} // verus!
