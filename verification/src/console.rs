//! The text a script console answers with: for each value a line with its index and its printed
//! form, or a line for the error and one for its cause.
use vstd::prelude::*;
use vstd::string::*;
use crate::util::push_char;

verus! {

/// The decimal digit of a number from 0 to 9.
pub open spec fn digit(d: nat) -> char {
    ((d + 48) as u32) as char
}

/// The decimal digits of a number, most significant first, without leading zeros (`0` is one
/// digit).
pub open spec fn decimal(n: nat) -> Seq<char>
    decreases n,
{
    if n < 10 {
        seq![digit(n)]
    } else {
        decimal(n / 10).push(digit(n % 10))
    }
}

/// A value returned by a script, as the console shows it.
#[derive(Clone, Debug, PartialEq, Eq)]
pub enum ValueText {
    /// The value printed as JSON.
    Printed(String),
    /// The value's debug form, for a value with no JSON form.
    Debug(String),
}

/// The console line for the value at `index`: `[index]prt: json` or `[index]dbg: form`.
pub open spec fn value_line(index: nat, value: ValueText) -> Seq<char> {
    match value {
        ValueText::Printed(json) => "["@ + decimal(index) + "]prt: "@ + json@ + seq!['\n'],
        ValueText::Debug(form) => "["@ + decimal(index) + "]dbg: "@ + form@ + seq!['\n'],
    }
}

/// The console lines for the values, in order, numbered from 0.
pub open spec fn values_text(values: Seq<ValueText>) -> Seq<char>
    decreases values.len(),
{
    if values.len() == 0 {
        Seq::empty()
    } else {
        values_text(values.drop_last()) + value_line((values.len() - 1) as nat, values.last())
    }
}

/// The decimal digits of a number, most significant first.
pub fn decimal_string(n: usize) -> (text: String)
    ensures
        text@ == decimal(n as nat),
{
    let mut digits: Vec<char> = Vec::new();
    let mut rest = n;
    // the digits of `n`, least significant first
    while rest >= 10
        invariant
            decimal(n as nat) == decimal(rest as nat) + digits@.reverse(),
        decreases rest,
    {
        let d = rest % 10;
        let c = ((d as u8) + 48) as char;
        proof {
            assert(decimal(rest as nat) == decimal((rest / 10) as nat).push(digit((rest % 10) as nat)));
            assert(digits@.push(c).reverse() =~= seq![c] + digits@.reverse());
            assert(decimal(rest as nat) + digits@.reverse() =~= decimal((rest / 10) as nat)
                + digits@.push(c).reverse());
        }
        digits.push(c);
        rest = rest / 10;
    }
    let mut text = String::new();
    push_char(&mut text, ((rest as u8) + 48) as char);
    let mut i = digits.len();
    assert(digits@.reverse().take(0) =~= Seq::<char>::empty());
    while i > 0
        invariant
            i <= digits@.len(),
            decimal(n as nat) == decimal(rest as nat) + digits@.reverse(),
            rest < 10,
            text@ == decimal(rest as nat) + digits@.reverse().take((digits@.len() - i) as int),
        decreases i,
    {
        let ghost before = text@;
        push_char(&mut text, digits[i - 1]);
        proof {
            let r = digits@.reverse();
            let k = (digits@.len() - i) as int;
            assert(r[k] == digits@[i - 1]);
            assert(r.take(k + 1) =~= r.take(k).push(r[k]));
        }
        i = i - 1;
    }
    assert(digits@.reverse().take(digits@.len() as int) =~= digits@.reverse());
    text
}

/// The console's answer for the values a script returned: one line per value, numbered from 0.
pub fn format_values(values: &Vec<ValueText>) -> (text: String)
    ensures
        text@ == values_text(values@),
{
    let mut text = String::new();
    let mut i: usize = 0;
    assert(values@.take(0) =~= Seq::<ValueText>::empty());
    while i < values.len()
        invariant
            i <= values@.len(),
            text@ == values_text(values@.take(i as int)),
        decreases values@.len() - i,
    {
        let ghost before = text@;
        text.append("[");
        let index = decimal_string(i);
        text.append(index.as_str());
        match &values[i] {
            ValueText::Printed(json) => {
                text.append("]prt: ");
                text.append(json.as_str());
            },
            ValueText::Debug(form) => {
                text.append("]dbg: ");
                text.append(form.as_str());
            },
        }
        push_char(&mut text, '\n');
        proof {
            let t = values@.take(i + 1);
            assert(t.drop_last() =~= values@.take(i as int));
            assert(text@ =~= before + value_line(i as nat, values@[i as int]));
        }
        i = i + 1;
    }
    assert(values@.take(i as int) =~= values@);
    text
}

/// The console's answer for a script that failed: the error, and what caused it if known.
pub fn format_error(message: &str, cause: Option<&str>) -> (text: String)
    ensures
        text@ == "err: "@ + message@ + seq!['\n'] + match cause {
            Some(c) => "caused by: "@ + c@ + seq!['\n'],
            None => Seq::empty(),
        },
{
    let mut text = String::from_str("err: ");
    text.append(message);
    push_char(&mut text, '\n');
    match cause {
        Some(c) => {
            let ghost before = text@;
            text.append("caused by: ");
            text.append(c);
            push_char(&mut text, '\n');
            assert(text@ =~= before + ("caused by: "@ + c@ + seq!['\n']));
        },
        None => {
            assert(text@ =~= text@ + Seq::<char>::empty());
        },
    }
    text
}

} // verus!
