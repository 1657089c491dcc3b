//! Values that can be rendered as one line of text.
use vstd::prelude::*;

verus! {

/// A value with a one-line textual rendering.
pub trait Render {
    /// The text that `render` produces.
    spec fn rendered(&self) -> Seq<char>;

    /// Renders the value.
    fn render(&self) -> (text: String)
        ensures
            text@ == self.rendered(),
    ;
}

impl Render for String {
    open spec fn rendered(&self) -> Seq<char> {
        self@
    }

    fn render(&self) -> (text: String) {
        self.clone()
    }
}

impl<'a> Render for &'a str {
    open spec fn rendered(&self) -> Seq<char> {
        (*self)@
    }

    fn render(&self) -> (text: String) {
        String::from_str(*self)
    }
}

impl Render for () {
    open spec fn rendered(&self) -> Seq<char> {
        Seq::empty()
    }

    fn render(&self) -> (text: String) {
        String::new()
    }
}

/// The character of a decimal digit.
pub open spec fn digit_char(d: int) -> char {
    if d == 0 {
        '0'
    } else if d == 1 {
        '1'
    } else if d == 2 {
        '2'
    } else if d == 3 {
        '3'
    } else if d == 4 {
        '4'
    } else if d == 5 {
        '5'
    } else if d == 6 {
        '6'
    } else if d == 7 {
        '7'
    } else if d == 8 {
        '8'
    } else {
        '9'
    }
}

/// The decimal notation of `n`, most significant digit first, without leading zeros.
pub open spec fn decimal(n: nat) -> Seq<char>
    decreases n,
{
    if n < 10 {
        seq![digit_char(n as int)]
    } else {
        decimal(n / 10).push(digit_char((n % 10) as int))
    }
}

/// The one-character text of the decimal digit `d`.
fn digit_text(d: u32) -> (text: &'static str)
    requires
        d < 10,
    ensures
        text@ == seq![digit_char(d as int)],
{
    proof {
        reveal_strlit("0");
        reveal_strlit("1");
        reveal_strlit("2");
        reveal_strlit("3");
        reveal_strlit("4");
        reveal_strlit("5");
        reveal_strlit("6");
        reveal_strlit("7");
        reveal_strlit("8");
        reveal_strlit("9");
    }
    match d {
        0 => "0",
        1 => "1",
        2 => "2",
        3 => "3",
        4 => "4",
        5 => "5",
        6 => "6",
        7 => "7",
        8 => "8",
        _ => "9",
    }
}

impl Render for u32 {
    open spec fn rendered(&self) -> Seq<char> {
        decimal(*self as nat)
    }

    fn render(&self) -> (text: String) {
        let value: u32 = *self;
        let mut n: u32 = value / 10;
        let mut acc = String::from_str(digit_text(value % 10));
        while n > 0
            invariant
                n > 0 ==> decimal(value as nat) == decimal(n as nat) + acc@,
                n == 0 ==> decimal(value as nat) == acc@,
            decreases n,
        {
            let d = digit_text(n % 10);
            let ghost before = acc@;
            acc = String::from_str(d).concat(acc.as_str());
            proof {
                assert(acc@ == seq![digit_char((n % 10) as int)] + before);
                if n >= 10 {
                    assert(decimal(n as nat) == decimal((n / 10) as nat).push(
                        digit_char((n % 10) as int),
                    ));
                    assert(decimal((n / 10) as nat).push(digit_char((n % 10) as int)) + before
                        =~= decimal((n / 10) as nat) + acc@);
                } else {
                    assert(decimal(n as nat) == seq![digit_char(n as int)]);
                    assert(seq![digit_char(n as int)] + before =~= acc@);
                }
            }
            n = n / 10;
        }
        acc
    }
}

} // verus!
