//! Errors of the runtime and the text they render to.
//!
//! An error keeps its message as a text with `{}` holes and the values that
//! fill them, so that contracts can speak of the values; [`AegisError::message`]
//! puts the two together.
use vstd::prelude::*;

verus! {

/// One value that fills a `{}` hole of a message.
#[derive(Debug)]
pub enum Value {
    Number(u64),
    Signed(i32),
    Flag(bool),
    Label(&'static str),
    Name(String),
    Shape(Vec<usize>),
}

/// The values of a message, in the order of its holes.
#[derive(Debug)]
pub enum Values {
    Zero,
    One(Value),
    Two(Value, Value),
    Three(Value, Value, Value),
    Four(Value, Value, Value, Value),
    Five(Value, Value, Value, Value, Value),
    Six(Value, Value, Value, Value, Value, Value),
    Seven(Value, Value, Value, Value, Value, Value, Value),
    Eight(Value, Value, Value, Value, Value, Value, Value, Value),
    Nine(Value, Value, Value, Value, Value, Value, Value, Value, Value),
}

/// A message text with the values of its holes.
#[derive(Debug)]
pub struct Message {
    pub text: &'static str,
    pub values: Values,
}

/// Why a request was refused.
#[derive(Debug)]
pub enum AegisError {
    /// The request itself is inconsistent: a shape, a length, a range.
    InvalidPlan(Message),
    /// The request is consistent but nothing here serves it.
    Unsupported(Message),
}

impl AegisError {
    /// An [`AegisError::InvalidPlan`] whose text has no holes.
    pub open spec fn invalid(text: &'static str) -> AegisError {
        AegisError::InvalidPlan(Message { text, values: Values::Zero })
    }

    /// An [`AegisError::InvalidPlan`] with values.
    pub open spec fn invalid_with(text: &'static str, values: Values) -> AegisError {
        AegisError::InvalidPlan(Message { text, values })
    }

    /// An [`AegisError::Unsupported`] whose text has no holes.
    pub open spec fn unsupported(text: &'static str) -> AegisError {
        AegisError::Unsupported(Message { text, values: Values::Zero })
    }

    /// An [`AegisError::Unsupported`] with values.
    pub open spec fn unsupported_with(text: &'static str, values: Values) -> AegisError {
        AegisError::Unsupported(Message { text, values })
    }
}

impl Value {
    /// The value that shows the number `value`.
    pub open spec fn num(value: int) -> Value {
        Value::Number(value as u64)
    }
}

/// The character of a decimal digit.
pub open spec fn digit_char(digit: int) -> char {
    (48 + digit) as char
}

/// The decimal numeral of `n`, without leading zeros.
pub open spec fn decimal(n: nat) -> Seq<char>
    decreases n,
{
    if n < 10 {
        seq![digit_char(n as int)]
    } else {
        decimal(n / 10).push(digit_char((n % 10) as int))
    }
}

/// The numerals of `shape`, separated by a comma and a blank.
pub open spec fn joined(shape: Seq<usize>) -> Seq<char>
    decreases shape.len(),
{
    if shape.len() == 0 {
        Seq::empty()
    } else if shape.len() == 1 {
        decimal(shape[0] as nat)
    } else {
        joined(shape.drop_last()) + seq![',', ' '] + decimal(shape.last() as nat)
    }
}

impl Value {
    /// What the value looks like inside a message.
    pub open spec fn shown(&self) -> Seq<char> {
        match self {
            Value::Number(number) => decimal(*number as nat),
            Value::Signed(number) => if *number < 0 {
                seq!['-'] + decimal((-*number) as nat)
            } else {
                decimal(*number as nat)
            },
            Value::Flag(flag) => if *flag {
                seq!['t', 'r', 'u', 'e']
            } else {
                seq!['f', 'a', 'l', 's', 'e']
            },
            Value::Label(label) => label@,
            Value::Name(name) => name@,
            Value::Shape(shape) => seq!['['] + joined(shape@) + seq![']'],
        }
    }
}

impl Values {
    /// The values as a sequence of texts.
    pub open spec fn shown(&self) -> Seq<Seq<char>> {
        match self {
            Values::Zero => Seq::empty(),
            Values::One(a) => seq![a.shown()],
            Values::Two(a, b) => seq![a.shown(), b.shown()],
            Values::Three(a, b, c) => seq![a.shown(), b.shown(), c.shown()],
            Values::Four(a, b, c, d) => seq![a.shown(), b.shown(), c.shown(), d.shown()],
            Values::Five(a, b, c, d, e) =>
                seq![a.shown(), b.shown(), c.shown(), d.shown(), e.shown()],
            Values::Six(a, b, c, d, e, f) =>
                seq![a.shown(), b.shown(), c.shown(), d.shown(), e.shown(), f.shown()],
            Values::Seven(a, b, c, d, e, f, g) =>
                seq![a.shown(), b.shown(), c.shown(), d.shown(), e.shown(), f.shown(), g.shown()],
            Values::Eight(a, b, c, d, e, f, g, h) =>
                seq![a.shown(), b.shown(), c.shown(), d.shown(), e.shown(), f.shown(), g.shown(), h.shown()],
            Values::Nine(a, b, c, d, e, f, g, h, i) =>
                seq![a.shown(), b.shown(), c.shown(), d.shown(), e.shown(), f.shown(), g.shown(), h.shown(), i.shown()],
        }
    }
}

/// `text` with each `{}` replaced by the next of `values`; holes beyond the
/// last value stay as they are.
pub open spec fn filled(text: Seq<char>, values: Seq<Seq<char>>) -> Seq<char>
    decreases text.len(),
{
    if text.len() == 0 {
        Seq::empty()
    } else if text.len() >= 2 && text[0] == '{' && text[1] == '}' && values.len() > 0 {
        values[0] + filled(text.skip(2), values.skip(1))
    } else {
        seq![text[0]] + filled(text.skip(1), values)
    }
}

impl AegisError {
    /// The message an error carries, whichever variant it is.
    pub open spec fn spec_message(&self) -> Seq<char> {
        match self {
            AegisError::InvalidPlan(message) => filled(message.text@, message.values.shown()),
            AegisError::Unsupported(message) => filled(message.text@, message.values.shown()),
        }
    }

    /// Renders the message of the error.
    pub fn message(&self) -> (text: String)
        ensures
            text@ == self.spec_message(),
    {
        match self {
            AegisError::InvalidPlan(message) => message.render(),
            AegisError::Unsupported(message) => message.render(),
        }
    }
}

/// An [`AegisError::InvalidPlan`] with values.
pub fn invalid_plan(text: &'static str, values: Values) -> (error: AegisError)
    ensures
        error == AegisError::invalid_with(text, values),
{
    AegisError::InvalidPlan(Message { text, values })
}

/// An [`AegisError::Unsupported`] with values.
pub fn unsupported_plan(text: &'static str, values: Values) -> (error: AegisError)
    ensures
        error == AegisError::unsupported_with(text, values),
{
    AegisError::Unsupported(Message { text, values })
}

/// The value that shows a length or a count.
pub fn number(value: usize) -> (shown: Value)
    ensures
        shown == Value::num(value as int),
{
    Value::Number(value as u64)
}

/// `String::push`: appends one character.
#[verifier::external_body]
fn push_char(text: &mut String, c: char)
    ensures
        final(text)@ == old(text)@.push(c),
{
    text.push(c)
}

/// The character of a decimal digit.
fn digit(d: u64) -> (c: char)
    requires
        d < 10,
    ensures
        c == digit_char(d as int),
{
    if d == 0 { '0' } else if d == 1 { '1' } else if d == 2 { '2' } else if d == 3 { '3' } else if d == 4 {
        '4'
    } else if d == 5 { '5' } else if d == 6 { '6' } else if d == 7 { '7' } else if d == 8 { '8' } else { '9' }
}

/// Appends the decimal numeral of `n`.
pub fn push_decimal(text: &mut String, n: u64)
    ensures
        final(text)@ == old(text)@ + decimal(n as nat),
    decreases n,
{
    if n >= 10 {
        push_decimal(text, n / 10);
    }
    push_char(text, digit(n % 10));
    assert(text@ =~= old(text)@ + decimal(n as nat));
}

/// Appends the numerals of `shape`, separated by a comma and a blank.
fn push_joined(text: &mut String, shape: &Vec<usize>)
    ensures
        final(text)@ == old(text)@ + joined(shape@),
{
    assert(text@ =~= old(text)@ + joined(shape@.take(0)));
    for i in 0..shape.len()
        invariant
            text@ == old(text)@ + joined(shape@.take(i as int)),
    {
        if i > 0 {
            push_char(text, ',');
            push_char(text, ' ');
        }
        push_decimal(text, shape[i] as u64);
        assert(shape@.take(i + 1).drop_last() =~= shape@.take(i as int));
        assert(text@ =~= old(text)@ + joined(shape@.take(i + 1)));
    }
    assert(shape@.take(shape.len() as int) =~= shape@);
}

impl Value {
    /// Appends what the value looks like.
    fn push_to(&self, text: &mut String)
        ensures
            final(text)@ == old(text)@ + self.shown(),
    {
        match self {
            Value::Number(number) => push_decimal(text, *number),
            Value::Signed(number) => {
                if *number < 0 {
                    push_char(text, '-');
                    push_decimal(text, (-(*number as i64)) as u64);
                } else {
                    push_decimal(text, *number as u64);
                }
                assert(text@ =~= old(text)@ + self.shown());
            },
            Value::Flag(flag) => {
                if *flag {
                    proof {
                        reveal_strlit("true");
                    }
                    text.append("true");
                    assert("true"@ =~= seq!['t', 'r', 'u', 'e']);
                } else {
                    proof {
                        reveal_strlit("false");
                    }
                    text.append("false");
                    assert("false"@ =~= seq!['f', 'a', 'l', 's', 'e']);
                }
            },
            Value::Label(label) => text.append(label),
            Value::Name(name) => text.append(name.as_str()),
            Value::Shape(shape) => {
                push_char(text, '[');
                push_joined(text, shape);
                push_char(text, ']');
                assert(text@ =~= old(text)@ + self.shown());
            },
        }
    }
}

impl Values {
    /// How many values there are.
    fn count(&self) -> (n: usize)
        ensures
            n == self.shown().len(),
    {
        match self {
            Values::Zero => 0,
            Values::One(..) => 1,
            Values::Two(..) => 2,
            Values::Three(..) => 3,
            Values::Four(..) => 4,
            Values::Five(..) => 5,
            Values::Six(..) => 6,
            Values::Seven(..) => 7,
            Values::Eight(..) => 8,
            Values::Nine(..) => 9,
        }
    }

    /// Appends the value of hole `k`.
    fn push_value(&self, k: usize, text: &mut String)
        requires
            k < self.shown().len(),
        ensures
            final(text)@ == old(text)@ + self.shown()[k as int],
    {
        match self {
            Values::Zero => {},
            Values::One(a) => a.push_to(text),
            Values::Two(a, b) => if k == 0 { a.push_to(text) } else { b.push_to(text) },
            Values::Three(a, b, c) => if k == 0 { a.push_to(text) } else if k == 1 { b.push_to(text) } else { c.push_to(text) },
            Values::Four(a, b, c, d) => if k == 0 { a.push_to(text) } else if k == 1 { b.push_to(text) } else if k == 2 { c.push_to(text) } else { d.push_to(text) },
            Values::Five(a, b, c, d, e) => if k == 0 { a.push_to(text) } else if k == 1 { b.push_to(text) } else if k == 2 { c.push_to(text) } else if k == 3 { d.push_to(text) } else { e.push_to(text) },
            Values::Six(a, b, c, d, e, f) => if k == 0 { a.push_to(text) } else if k == 1 { b.push_to(text) } else if k == 2 { c.push_to(text) } else if k == 3 { d.push_to(text) } else if k == 4 { e.push_to(text) } else { f.push_to(text) },
            Values::Seven(a, b, c, d, e, f, g) => if k == 0 { a.push_to(text) } else if k == 1 { b.push_to(text) } else if k == 2 { c.push_to(text) } else if k == 3 { d.push_to(text) } else if k == 4 { e.push_to(text) } else if k == 5 { f.push_to(text) } else { g.push_to(text) },
            Values::Eight(a, b, c, d, e, f, g, h) => if k == 0 { a.push_to(text) } else if k == 1 { b.push_to(text) } else if k == 2 { c.push_to(text) } else if k == 3 { d.push_to(text) } else if k == 4 { e.push_to(text) } else if k == 5 { f.push_to(text) } else if k == 6 { g.push_to(text) } else { h.push_to(text) },
            Values::Nine(a, b, c, d, e, f, g, h, i) => if k == 0 { a.push_to(text) } else if k == 1 { b.push_to(text) } else if k == 2 { c.push_to(text) } else if k == 3 { d.push_to(text) } else if k == 4 { e.push_to(text) } else if k == 5 { f.push_to(text) } else if k == 6 { g.push_to(text) } else if k == 7 { h.push_to(text) } else { i.push_to(text) },
        }
    }
}

impl Message {
    /// The text with its holes filled.
    pub fn render(&self) -> (out: String)
        ensures
            out@ == filled(self.text@, self.values.shown()),
    {
        let mut chars: Vec<char> = Vec::new();
        for c in it: self.text.chars()
            invariant
                chars@ == it.seq().take(it.index() as int),
        {
            chars.push(c);
            assert(it.seq().take(it.index() as int + 1) =~= chars@);
        }
        assert(chars@ =~= self.text@);
        let count: usize = self.values.count();
        let ghost all = self.values.shown();
        let mut out: String = String::new();
        let mut i: usize = 0;
        let mut k: usize = 0;
        assert(chars@.skip(0) =~= chars@ && all.skip(0) =~= all);
        assert(out@ + filled(chars@.skip(0), all.skip(0)) =~= filled(self.text@, all));
        while i < chars.len()
            invariant
                i <= chars@.len(),
                k <= count,
                count == all.len(),
                all == self.values.shown(),
                chars@ == self.text@,
                out@ + filled(chars@.skip(i as int), all.skip(k as int)) == filled(self.text@, all),
            decreases chars@.len() - i,
        {
            let ghost rest = chars@.skip(i as int);
            let ghost left = all.skip(k as int);
            let ghost before = out@;
            if chars[i] == '{' && i + 1 < chars.len() && chars[i + 1] == '}' && k < count {
                self.values.push_value(k, &mut out);
                assert(rest.skip(2) =~= chars@.skip(i + 2));
                assert(left.skip(1) =~= all.skip(k + 1));
                assert(out@ + filled(chars@.skip(i + 2), all.skip(k + 1)) =~= before + filled(rest, left));
                i = i + 2;
                k = k + 1;
            } else {
                push_char(&mut out, chars[i]);
                assert(rest.skip(1) =~= chars@.skip(i + 1));
                assert(out@ + filled(chars@.skip(i + 1), left) =~= before + filled(rest, left));
                i = i + 1;
            }
        }
        assert(out@ =~= out@ + filled(chars@.skip(i as int), all.skip(k as int)));
        out
    }
}

} // verus!
