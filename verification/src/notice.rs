//! What the proxy reports about a connection, and at which verbosity.

use vstd::prelude::*;
use vstd::string::StringExecFns;
use crate::base::{DebugLevel, Error, ErrorView};
use crate::options::{all_digits, decimal_value, digit_value, is_digit, parse_model};

verus! {

/// The character of a decimal digit.
pub open spec fn digit_char(digit: nat) -> char {
    if digit == 0 {
        '0'
    } else if digit == 1 {
        '1'
    } else if digit == 2 {
        '2'
    } else if digit == 3 {
        '3'
    } else if digit == 4 {
        '4'
    } else if digit == 5 {
        '5'
    } else if digit == 6 {
        '6'
    } else if digit == 7 {
        '7'
    } else if digit == 8 {
        '8'
    } else {
        '9'
    }
}

/// The decimal numeral of `n`, without leading zeros.
pub open spec fn decimal_text(n: nat) -> Seq<char>
    decreases n,
{
    if n < 10 {
        seq![digit_char(n)]
    } else {
        decimal_text(n / 10).push(digit_char(n % 10))
    }
}

/// The numeral of a number is read back as that number: it holds digits
/// only, at least one, and stands for the number.
pub proof fn decimal_text_is_read_back(n: nat, max: nat)
    requires
        n <= max,
    ensures
        decimal_text(n).len() > 0,
        all_digits(decimal_text(n)),
        decimal_value(decimal_text(n)) == n,
        parse_model(decimal_text(n), max) == Some(n),
    decreases n,
{
    let text = decimal_text(n);
    if n < 10 {
        assert(text.drop_last() =~= Seq::<char>::empty());
        assert(decimal_value(text) == decimal_value(text.drop_last()) * 10 + digit_value(
            text.last(),
        ));
    } else {
        decimal_text_is_read_back(n / 10, max);
        let shorter = decimal_text(n / 10);
        assert(text.drop_last() =~= shorter);
        assert(text.last() == digit_char(n % 10));
        assert forall|i: int| 0 <= i < text.len() implies is_digit(#[trigger] text[i]) by {
            if i < shorter.len() {
                assert(text[i] == shorter[i]);
            }
        }
    }
    assert(text[0] != '+');
    assert(text.skip(0) =~= text);
}

fn digit_text(digit: usize) -> (text: &'static str)
    requires
        digit < 10,
    ensures
        text@ == seq![digit_char(digit as nat)],
{
    proof {
        reveal_strlit("0");
        reveal_strlit("1");
        reveal_strlit("2");
        reveal_strlit("3");
        reveal_strlit("4");
        reveal_strlit("5");
        reveal_strlit("6");
        reveal_strlit("7");
        reveal_strlit("8");
        reveal_strlit("9");
    }
    let text = if digit == 0 {
        "0"
    } else if digit == 1 {
        "1"
    } else if digit == 2 {
        "2"
    } else if digit == 3 {
        "3"
    } else if digit == 4 {
        "4"
    } else if digit == 5 {
        "5"
    } else if digit == 6 {
        "6"
    } else if digit == 7 {
        "7"
    } else if digit == 8 {
        "8"
    } else {
        "9"
    };
    assert(text@ =~= seq![digit_char(digit as nat)]);
    text
}

/// Writes a number as a decimal numeral.
pub fn to_decimal(n: usize) -> (text: String)
    ensures
        text@ == decimal_text(n as nat),
    decreases n,
{
    if n < 10 {
        digit_text(n).to_owned()
    } else {
        let mut text = to_decimal(n / 10);
        text.append(digit_text(n % 10));
        assert(text@ =~= decimal_text(n as nat));
        text
    }
}

/// Something that the proxy reports.
#[derive(Clone, Debug, PartialEq, Eq)]
pub enum Notice {
    /// An event came for a token that no connection holds.
    UnknownToken(usize),
    /// The remote endpoint of a step could not be reached.
    Connecting(Error),
    /// Reading from the ingress endpoint failed.
    ReadingClient(Error),
    /// Writing to the ingress endpoint failed.
    WritingClient(Error),
    /// The backward drive, which reads from the pipeline, failed.
    ReadingPipeline(Error),
    /// The forward drive, which writes to the pipeline, failed.
    WritingPipeline(Error),
    /// A connection was accepted.
    NewClient,
}

/// What the contracts see of a [`Notice`].
pub enum NoticeView {
    UnknownToken(usize),
    Connecting(ErrorView),
    ReadingClient(ErrorView),
    WritingClient(ErrorView),
    ReadingPipeline(ErrorView),
    WritingPipeline(ErrorView),
    NewClient,
}

impl View for Notice {
    type V = NoticeView;

    open spec fn view(&self) -> NoticeView {
        match self {
            Notice::UnknownToken(token) => NoticeView::UnknownToken(*token),
            Notice::Connecting(e) => NoticeView::Connecting(e@),
            Notice::ReadingClient(e) => NoticeView::ReadingClient(e@),
            Notice::WritingClient(e) => NoticeView::WritingClient(e@),
            Notice::ReadingPipeline(e) => NoticeView::ReadingPipeline(e@),
            Notice::WritingPipeline(e) => NoticeView::WritingPipeline(e@),
            Notice::NewClient => NoticeView::NewClient,
        }
    }
}

impl NoticeView {
    /// The failure that the notice is about, if it is about one.
    pub open spec fn error(self) -> Option<ErrorView> {
        match self {
            NoticeView::Connecting(e) => Some(e),
            NoticeView::ReadingClient(e) => Some(e),
            NoticeView::WritingClient(e) => Some(e),
            NoticeView::ReadingPipeline(e) => Some(e),
            NoticeView::WritingPipeline(e) => Some(e),
            NoticeView::UnknownToken(_) => None,
            NoticeView::NewClient => None,
        }
    }

    /// The least verbosity at which the notice is shown: failures from
    /// level 1 on, accepted connections from level 2 on.
    pub open spec fn level(self) -> int {
        match self {
            NoticeView::NewClient => 2,
            _ => 1,
        }
    }

    /// The line that reports the notice.
    pub open spec fn text(self) -> Seq<char> {
        match self {
            NoticeView::UnknownToken(token) => "No client found with this token "@ + decimal_text(
                token as nat,
            ),
            NoticeView::Connecting(e) => "an error accured connecting pipeline: "@ + e.describe(),
            NoticeView::ReadingClient(e) => "an error accured reading client: "@ + e.describe(),
            NoticeView::WritingClient(e) => "an error accured writing client: "@ + e.describe(),
            NoticeView::ReadingPipeline(e) => "an error accured reading pipeline: "@
                + e.describe(),
            NoticeView::WritingPipeline(e) => "an error accured writing pipeline: "@
                + e.describe(),
            NoticeView::NewClient => "new client: "@,
        }
    }
}

impl Notice {
    /// The failure that the notice is about, if it is about one.
    pub fn error(&self) -> (failure: Option<&Error>)
        ensures
            match failure {
                Some(e) => self@.error() == Some(e@),
                None => self@.error() is None,
            },
    {
        match self {
            Notice::Connecting(e) => Some(e),
            Notice::ReadingClient(e) => Some(e),
            Notice::WritingClient(e) => Some(e),
            Notice::ReadingPipeline(e) => Some(e),
            Notice::WritingPipeline(e) => Some(e),
            Notice::UnknownToken(_) => None,
            Notice::NewClient => None,
        }
    }

    /// The failure that the notice is about, taken out of it.
    pub fn into_error(self) -> (failure: Option<Error>)
        ensures
            match failure {
                Some(e) => self@.error() == Some(e@),
                None => self@.error() is None,
            },
    {
        match self {
            Notice::Connecting(e) => Some(e),
            Notice::ReadingClient(e) => Some(e),
            Notice::WritingClient(e) => Some(e),
            Notice::ReadingPipeline(e) => Some(e),
            Notice::WritingPipeline(e) => Some(e),
            Notice::UnknownToken(_) => None,
            Notice::NewClient => None,
        }
    }

    /// The least verbosity at which the notice is shown.
    pub fn level(&self) -> (least: i32)
        ensures
            least == self@.level(),
    {
        match self {
            Notice::NewClient => 2,
            _ => 1,
        }
    }

    /// Whether the notice is shown at the verbosity `debug_level`.
    pub fn shown_at(&self, debug_level: DebugLevel) -> (shown: bool)
        ensures
            shown == (debug_level.rank() >= self@.level()),
    {
        debug_level.at_least(self.level())
    }

    /// The line that reports the notice. For an accepted connection the
    /// host adds the address of the peer.
    pub fn text(&self) -> (line: String)
        ensures
            line@ == self@.text(),
    {
        match self {
            Notice::UnknownToken(token) => {
                let mut line = "No client found with this token ".to_owned();
                let number = to_decimal(*token);
                line.append(number.as_str());
                line
            },
            Notice::Connecting(e) => {
                let mut line = "an error accured connecting pipeline: ".to_owned();
                let words = e.describe();
                line.append(words.as_str());
                line
            },
            Notice::ReadingClient(e) => {
                let mut line = "an error accured reading client: ".to_owned();
                let words = e.describe();
                line.append(words.as_str());
                line
            },
            Notice::WritingClient(e) => {
                let mut line = "an error accured writing client: ".to_owned();
                let words = e.describe();
                line.append(words.as_str());
                line
            },
            Notice::ReadingPipeline(e) => {
                let mut line = "an error accured reading pipeline: ".to_owned();
                let words = e.describe();
                line.append(words.as_str());
                line
            },
            Notice::WritingPipeline(e) => {
                let mut line = "an error accured writing pipeline: ".to_owned();
                let words = e.describe();
                line.append(words.as_str());
                line
            },
            Notice::NewClient => "new client: ".to_owned(),
        }
    }
}

} // verus!
