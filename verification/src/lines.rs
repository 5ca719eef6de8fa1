//! The narration text: a decimal numeral builder and the three line
//! shapes a run speaks — the greeting, one line per thread, and the
//! closing summary.

use vstd::prelude::*;
use vstd::string::StringExecFns;
use crate::dto::PostView;
use crate::dto::RedditPost;

verus! {

/// The character for one decimal digit.
pub open spec fn digit_char(d: nat) -> char {
    if d == 0 {
        '0'
    } else if d == 1 {
        '1'
    } else if d == 2 {
        '2'
    } else if d == 3 {
        '3'
    } else if d == 4 {
        '4'
    } else if d == 5 {
        '5'
    } else if d == 6 {
        '6'
    } else if d == 7 {
        '7'
    } else if d == 8 {
        '8'
    } else {
        '9'
    }
}

/// The decimal numeral of `n`: most significant digit first, no leading
/// zeros, and the single digit `0` for zero.
pub open spec fn dec_digits(n: nat) -> Seq<char>
    decreases n,
{
    if n < 10 {
        seq![digit_char(n)]
    } else {
        dec_digits(n / 10).push(digit_char(n % 10))
    }
}

fn digit_str(d: usize) -> (r: &'static str)
    requires
        d < 10,
    ensures
        r@ == seq![digit_char(d as nat)],
{
    proof {
        reveal_strlit("0");
        reveal_strlit("1");
        reveal_strlit("2");
        reveal_strlit("3");
        reveal_strlit("4");
        reveal_strlit("5");
        reveal_strlit("6");
        reveal_strlit("7");
        reveal_strlit("8");
        reveal_strlit("9");
    }
    let r: &'static str = match d {
        0 => "0",
        1 => "1",
        2 => "2",
        3 => "3",
        4 => "4",
        5 => "5",
        6 => "6",
        7 => "7",
        8 => "8",
        _ => "9",
    };
    proof {
        assert(r@ =~= seq![digit_char(d as nat)]);
    }
    r
}

/// Render `n` as its decimal numeral.
pub fn usize_to_string(n: usize) -> (r: String)
    ensures
        r@ == dec_digits(n as nat),
    decreases n,
{
    if n < 10 {
        digit_str(n).to_owned()
    } else {
        let mut s = usize_to_string(n / 10);
        s.append(digit_str(n % 10));
        proof {
            assert(s@ =~= dec_digits((n / 10) as nat).push(digit_char((n % 10) as nat)));
        }
        s
    }
}

/// The greeting spoken once before any title, for a batch of `n` threads.
pub open spec fn intro_line_spec(n: nat) -> Seq<char> {
    "Hello! Here are the top "@ + dec_digits(n) + " threads from Reddit."@
}

/// One title line: the thread's one-based position, its title, its author.
pub open spec fn unit_line_spec(position: nat, post: PostView) -> Seq<char> {
    "Thread "@ + dec_digits(position) + ": "@ + post.title + ". Posted by "@ + post.author
        + "."@
}

/// The closing summary spoken after the last title, for a batch of `n`.
pub open spec fn outro_line_spec(n: nat) -> Seq<char> {
    "That's all for now. You have heard the top "@ + dec_digits(n)
        + " threads from Reddit. Goodbye!"@
}

/// Build the greeting line for a batch of `n` threads.
pub fn intro_line(n: usize) -> (r: String)
    ensures
        r@ == intro_line_spec(n as nat),
{
    let mut s = "Hello! Here are the top ".to_owned();
    let num = usize_to_string(n);
    s.append(num.as_str());
    s.append(" threads from Reddit.");
    proof {
        assert(s@ =~= intro_line_spec(n as nat));
    }
    s
}

/// Build the title line for the thread at one-based `position`.
pub fn unit_line(position: usize, post: &RedditPost) -> (r: String)
    ensures
        r@ == unit_line_spec(position as nat, post@),
{
    let mut s = "Thread ".to_owned();
    let num = usize_to_string(position);
    s.append(num.as_str());
    s.append(": ");
    s.append(post.title.as_str());
    s.append(". Posted by ");
    s.append(post.author.as_str());
    s.append(".");
    proof {
        assert(s@ =~= unit_line_spec(position as nat, post@));
    }
    s
}

/// Build the closing line for a batch of `n` threads.
pub fn outro_line(n: usize) -> (r: String)
    ensures
        r@ == outro_line_spec(n as nat),
{
    let mut s = "That's all for now. You have heard the top ".to_owned();
    let num = usize_to_string(n);
    s.append(num.as_str());
    s.append(" threads from Reddit. Goodbye!");
    proof {
        assert(s@ =~= outro_line_spec(n as nat));
    }
    s
}

} // verus!
