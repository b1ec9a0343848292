//! The notification text sent for a new forum topic.
use vstd::prelude::*;

verus! {

/// The character of a decimal digit.
pub open spec fn digit_char(d: nat) -> char {
    if d == 0 { '0' }
    else if d == 1 { '1' }
    else if d == 2 { '2' }
    else if d == 3 { '3' }
    else if d == 4 { '4' }
    else if d == 5 { '5' }
    else if d == 6 { '6' }
    else if d == 7 { '7' }
    else if d == 8 { '8' }
    else { '9' }
}

/// The decimal notation of `n`, most significant digit first, no leading zeros.
pub open spec fn decimal(n: nat) -> Seq<char>
    decreases n,
{
    if n < 10 {
        seq![digit_char(n)]
    } else {
        decimal(n / 10) + seq![digit_char(n % 10)]
    }
}

fn digit_str(d: u64) -> (r: &'static str)
    requires
        d < 10,
    ensures
        r@ == seq![digit_char(d as nat)],
{
    proof {
        reveal_strlit("0");
        reveal_strlit("1");
        reveal_strlit("2");
        reveal_strlit("3");
        reveal_strlit("4");
        reveal_strlit("5");
        reveal_strlit("6");
        reveal_strlit("7");
        reveal_strlit("8");
        reveal_strlit("9");
    }
    if d == 0 { "0" }
    else if d == 1 { "1" }
    else if d == 2 { "2" }
    else if d == 3 { "3" }
    else if d == 4 { "4" }
    else if d == 5 { "5" }
    else if d == 6 { "6" }
    else if d == 7 { "7" }
    else if d == 8 { "8" }
    else { "9" }
}

/// Appends the decimal notation of `n` to `s`.
pub fn push_decimal(s: &mut String, n: u64)
    ensures
        final(s)@ == old(s)@ + decimal(n as nat),
    decreases n,
{
    if n < 10 {
        s.append(digit_str(n));
    } else {
        push_decimal(s, n / 10);
        s.append(digit_str(n % 10));
        assert(final(s)@ =~= old(s)@ + decimal(n as nat));
    }
}

/// The text of the notification for topic `id` titled `title`: the site's
/// name in bold, then a line that links the title to the topic's page.
pub open spec fn message_text(title: Seq<char>, id: u64) -> Seq<char> {
    "<b>AOSC BBS</b>\n<a href=\"https://bbs.aosc.io/t/topic/"@
        + decimal(id as nat)
        + "\">"@
        + title
        + "</a>"@
}

/// Renders the notification for topic `id` titled `title`, as HTML.
pub fn format_message(title: &str, id: u64) -> (r: String)
    ensures
        r@ == message_text(title@, id),
{
    let mut s = String::from_str("<b>AOSC BBS</b>\n<a href=\"https://bbs.aosc.io/t/topic/");
    push_decimal(&mut s, id);
    s.append("\">");
    s.append(title);
    s.append("</a>");
    s
}

} // verus!
