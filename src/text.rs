use vstd::prelude::*;

verus! {

/// The character of the decimal digit `d`.
pub open spec fn digit_char(d: nat) -> char
    recommends
        d < 10,
{
    if d == 0 { '0' }
    else if d == 1 { '1' }
    else if d == 2 { '2' }
    else if d == 3 { '3' }
    else if d == 4 { '4' }
    else if d == 5 { '5' }
    else if d == 6 { '6' }
    else if d == 7 { '7' }
    else if d == 8 { '8' }
    else { '9' }
}

/// `n` written in decimal, without leading zeros ("0" for zero).
pub open spec fn decimal(n: nat) -> Seq<char>
    decreases n,
{
    if n < 10 {
        seq![digit_char(n)]
    } else {
        decimal(n / 10).push(digit_char(n % 10))
    }
}

/// The label of the form that greets the user: `Hello '<name>', age <age>`.
pub open spec fn greeting_text(name: Seq<char>, age: nat) -> Seq<char> {
    "Hello '"@ + name + "', age "@ + decimal(age)
}

/// The label of the theme toggle names the theme it switches to.
pub open spec fn theme_toggle_text(dark: bool) -> Seq<char> {
    if dark { "Set light"@ } else { "Set dark"@ }
}

fn digit_str(d: u32) -> (r: &'static str)
    requires
        d < 10,
    ensures
        r@ == seq![digit_char(d as nat)],
{
    proof {
        reveal_strlit("0");
        reveal_strlit("1");
        reveal_strlit("2");
        reveal_strlit("3");
        reveal_strlit("4");
        reveal_strlit("5");
        reveal_strlit("6");
        reveal_strlit("7");
        reveal_strlit("8");
        reveal_strlit("9");
    }
    let r = if d == 0 { "0" }
    else if d == 1 { "1" }
    else if d == 2 { "2" }
    else if d == 3 { "3" }
    else if d == 4 { "4" }
    else if d == 5 { "5" }
    else if d == 6 { "6" }
    else if d == 7 { "7" }
    else if d == 8 { "8" }
    else { "9" };
    assert(r@ =~= seq![digit_char(d as nat)]);
    r
}

/// Appends `n` in decimal to `s`.
pub fn push_decimal(s: &mut String, n: u32)
    ensures
        final(s)@ == old(s)@ + decimal(n as nat),
    decreases n,
{
    if n >= 10 {
        push_decimal(s, n / 10);
    }
    s.append(digit_str(n % 10));
    proof {
        if n >= 10 {
            assert(decimal(n as nat) == decimal((n / 10) as nat).push(digit_char((n % 10) as nat)));
        }
        assert(s@ =~= old(s)@ + decimal(n as nat));
    }
}

/// The greeting that the form shows for `name` and `age`.
pub fn greeting(name: &String, age: u32) -> (r: String)
    ensures
        r@ == greeting_text(name@, age as nat),
{
    let mut r = String::from_str("Hello '");
    r.append(name.as_str());
    r.append("', age ");
    push_decimal(&mut r, age);
    r
}

/// The label of the theme toggle while the dark theme is `dark`.
pub fn theme_toggle_label(dark: bool) -> (r: String)
    ensures
        r@ == theme_toggle_text(dark),
{
    if dark {
        String::from_str("Set light")
    } else {
        String::from_str("Set dark")
    }
}

} // verus!
