//! How messages read: numbers in decimal, values in the order of the holes, and of several
//! refusals the first.
use crate::cutlass_bridge;
use crate::error::{self, decimal, digit_char, filled, AegisError, Message, Value, Values};
use crate::functions::{CudaKernelFunctions, Lookup};
use crate::loader::storage;
use vstd::prelude::*;

verus! {

/// Numbers are shown in decimal: read as a numeral, what is shown is the number again, without
/// zeros in front.
pub proof fn numbers_are_shown_in_decimal(n: nat)
    ensures
        storage::all_digits(decimal(n)),
        storage::digits_value(decimal(n)) == n,
        decimal(n).len() > 0,
        n > 0 ==> decimal(n)[0] != '0',
    decreases n,
{
    let last = digit_char((n % 10) as int);
    assert(last as int == 48 + n % 10);
    if n < 10 {
        assert(decimal(n).drop_last() =~= Seq::empty());
        assert(storage::digits_value(decimal(n).drop_last()) == 0);
        assert(n % 10 == n);
        assert(decimal(n)[0] == last);
        assert(storage::is_digit(last));
    } else {
        numbers_are_shown_in_decimal(n / 10);
        let front = decimal(n / 10);
        assert(decimal(n).drop_last() =~= front);
        assert forall|i: int| 0 <= i < decimal(n).len() implies storage::is_digit(
            #[trigger] decimal(n)[i],
        ) by {
            if i < front.len() {
                assert(decimal(n)[i] == front[i]);
                assert(storage::is_digit(front[i]));
            }
        }
    }
}

/// What stands before the first hole stays, the first value fills the hole, and the others
/// what follows.
pub proof fn values_fill_the_holes_in_order(
    front: Seq<char>,
    back: Seq<char>,
    value: Seq<char>,
    others: Seq<Seq<char>>,
)
    requires
        forall|i: int| 0 <= i < front.len() ==> #[trigger] front[i] != '{',
    ensures
        filled(front + seq!['{', '}'] + back, seq![value] + others) == front + value + filled(
            back,
            others,
        ),
    decreases front.len(),
{
    let text = front + seq!['{', '}'] + back;
    let values = seq![value] + others;
    if front.len() == 0 {
        assert(text.skip(2) =~= back);
        assert(values.skip(1) =~= others);
        assert(front + value + filled(back, others) =~= value + filled(back, others));
    } else {
        let rest = front.skip(1);
        assert(text[0] == front[0]);
        assert(text.skip(1) =~= rest + seq!['{', '}'] + back);
        assert forall|i: int| 0 <= i < rest.len() implies #[trigger] rest[i] != '{' by {
            assert(front[i + 1] != '{');
        }
        values_fill_the_holes_in_order(rest, back, value, others);
        assert(seq![front[0]] + (rest + value + filled(back, others)) =~= front + value + filled(
            back,
            others,
        ));
    }
}

/// A text without holes is shown as it is.
pub proof fn plain_texts_stay(text: Seq<char>, values: Seq<Seq<char>>)
    requires
        (forall|i: int| 0 <= i < text.len() ==> #[trigger] text[i] != '{') || values.len() == 0,
    ensures
        filled(text, values) == text,
    decreases text.len(),
{
    if text.len() > 0 {
        let rest = text.skip(1);
        assert forall|i: int|
            0 <= i < rest.len() && values.len() > 0 implies #[trigger] rest[i] != '{' by {
            assert(text[i + 1] != '{');
        }
        plain_texts_stay(rest, values);
        assert(seq![text[0]] + rest =~= text);
    }
}

/// Both kinds of error show their text with their values.
pub proof fn errors_show_their_values(text: &'static str, values: Values)
    ensures
        AegisError::invalid_with(text, values).spec_message() == filled(text@, values.shown()),
        AegisError::unsupported_with(text, values).spec_message() == filled(text@, values.shown()),
        AegisError::invalid(text).spec_message() == text@,
        AegisError::unsupported(text).spec_message() == text@,
        AegisError::invalid_with(text, values) is InvalidPlan,
        AegisError::unsupported_with(text, values) is Unsupported,
{
    plain_texts_stay(text@, Seq::empty());
}

/// Values are shown one by one: numbers in decimal, a minus before negative ones, shapes in
/// brackets with commas between their extents.
pub proof fn values_are_shown_one_by_one(
    number: u64,
    negative: i32,
    shape: Vec<usize>,
    one: Vec<usize>,
    a: Value,
    b: Value,
)
    requires
        negative < 0,
        shape@.len() >= 2,
        one@.len() == 1,
    ensures
        Value::Number(number).shown() == decimal(number as nat),
        Value::Signed(negative).shown() == seq!['-'] + decimal((0 - negative) as nat),
        Value::Shape(one).shown() == seq!['['] + decimal(one@[0] as nat) + seq![']'],
        error::joined(shape@) == error::joined(shape@.drop_last()) + seq![',', ' '] + decimal(
            shape@.last() as nat,
        ),
        Values::Zero.shown().len() == 0,
        Values::One(a).shown() == seq![a.shown()],
        Values::Two(a, b).shown() == seq![a.shown(), b.shown()],
{
}

/// A detail that comes later is shown last.
pub proof fn details_come_last(message: Message, detail: String)
    requires
        message.values.shown().len() <= 4,
    ensures
        message.spec_completed(detail).text == message.text,
        message.spec_completed(detail).values.shown() == message.values.shown().push(detail@),
{
    assert(message.spec_completed(detail).values.shown() =~= message.values.shown().push(detail@));
}

/// A report ends before its first zero.
pub proof fn reports_end_before_a_zero(report: Seq<u8>, after: Seq<u8>)
    requires
        forall|i: int| 0 <= i < report.len() ==> #[trigger] report[i] != 0,
    ensures
        cutlass_bridge::before_zero(report + seq![0u8] + after) == report,
        cutlass_bridge::before_zero(report) == report,
    decreases report.len(),
{
    let whole = report + seq![0u8] + after;
    if report.len() == 0 {
        assert(whole[0] == 0);
        assert(cutlass_bridge::before_zero(whole) =~= report);
        assert(cutlass_bridge::before_zero(report) =~= report);
    } else {
        let rest = report.drop_first();
        assert forall|i: int| 0 <= i < rest.len() implies #[trigger] rest[i] != 0 by {
            assert(report[i + 1] != 0);
        }
        reports_end_before_a_zero(rest, after);
        assert(whole.drop_first() =~= rest + seq![0u8] + after);
        assert(whole[0] == report[0]);
        assert(seq![report[0]] + rest =~= report);
    }
}

/// The bridge succeeds with code zero and fails with any other, which its message shows after
/// the extents, in their order.
pub proof fn codes_tell_success(m: i32, n: i32, k: i32, code: i32, text: &'static str)
    ensures
        cutlass_bridge::bare_outcome(code, text) is Ok <==> code == 0,
        cutlass_bridge::sized_outcome(m, n, k, code, text) is Ok <==> code == 0,
        cutlass_bridge::bare_outcome(code, text) matches Err(message) ==> message.text == text
            && message.values.shown() == seq![Value::Signed(code).shown()],
        cutlass_bridge::sized_outcome(m, n, k, code, text) matches Err(message) ==> message.text
            == text && message.values.shown() == seq![
            Value::Signed(m).shown(),
            Value::Signed(n).shown(),
            Value::Signed(k).shown(),
            Value::Signed(code).shown(),
        ],
{
}

/// Loading kernels is refused exactly if one of them is, with the refusal of the first.
pub proof fn first_refusal_counts(table: CudaKernelFunctions, outcomes: Seq<Lookup>)
    ensures
        table.first_refusal(outcomes) is None <==> forall|i: int|
            0 <= i < outcomes.len() ==> table.refusal_at(i, #[trigger] outcomes[i]) is None,
        table.first_refusal(outcomes) matches Some(error) ==> exists|i: int|
            0 <= i < outcomes.len() && table.refusal_at(i, #[trigger] outcomes[i]) == Some(error)
                && forall|j: int|
                0 <= j < i ==> table.refusal_at(j, #[trigger] outcomes[j]) is None,
    decreases outcomes.len(),
{
    if outcomes.len() > 0 {
        let before = outcomes.drop_last();
        let last = outcomes.len() - 1;
        first_refusal_counts(table, before);
        assert forall|i: int| 0 <= i < before.len() implies #[trigger] before[i] == outcomes[i] by {}
        if table.first_refusal(before) is Some {
            let error = table.first_refusal(before)->Some_0;
            let i = choose|i: int|
                0 <= i < before.len() && table.refusal_at(i, #[trigger] before[i]) == Some(error)
                    && forall|j: int|
                    0 <= j < i ==> table.refusal_at(j, #[trigger] before[j]) is None;
            assert(outcomes[i] == before[i]);
            assert forall|j: int| 0 <= j < i implies table.refusal_at(
                j,
                #[trigger] outcomes[j],
            ) is None by {
                assert(before[j] == outcomes[j]);
            }
        } else {
            assert forall|j: int| 0 <= j < last implies table.refusal_at(
                j,
                #[trigger] outcomes[j],
            ) is None by {
                assert(before[j] == outcomes[j]);
            }
            assert(outcomes[last] == outcomes.last());
        }
    }
}

} // verus!
