//! The endpoints of the tournament API.
use vstd::prelude::*;

verus! {

/// The catalog of games and formats.
pub const GAMES_URL: &'static str = "https://play.limitlesstcg.com/api/games";

/// The largest page size a list request can ask for.
pub const MAX_PAGE_SIZE: u128 = 0xffff_ffff_ffff_ffff_ffff_ffff_ffff_ffffu128;

/// The character of the decimal digit `d`.
pub open spec fn digit_char(d: nat) -> char {
    seq!['0', '1', '2', '3', '4', '5', '6', '7', '8', '9'][d as int]
}

/// The decimal text of `n`, without leading zeros.
pub open spec fn decimal(n: nat) -> Seq<char>
    decreases n,
{
    if n < 10 {
        seq![digit_char(n)]
    } else {
        decimal(n / 10).push(digit_char(n % 10))
    }
}

/// The list of tournaments played in `format`, asking for the largest page.
pub open spec fn tournaments_url_spec(format: Seq<char>) -> Seq<char> {
    "https://play.limitlesstcg.com/api/tournaments?format="@ + format + "&limit="@ + decimal(
        MAX_PAGE_SIZE as nat,
    )
}

/// The standings of the tournament `id`.
pub open spec fn standings_url_spec(id: Seq<char>) -> Seq<char> {
    "https://play.limitlesstcg.com/api/tournaments/"@ + id + "/standings"@
}

fn digit_text(d: u128) -> (r: &'static str)
    requires
        d < 10,
    ensures
        r@ == seq![digit_char(d as nat)],
{
    proof {
        reveal_strlit("0");
        reveal_strlit("1");
        reveal_strlit("2");
        reveal_strlit("3");
        reveal_strlit("4");
        reveal_strlit("5");
        reveal_strlit("6");
        reveal_strlit("7");
        reveal_strlit("8");
        reveal_strlit("9");
    }
    if d == 0 {
        "0"
    } else if d == 1 {
        "1"
    } else if d == 2 {
        "2"
    } else if d == 3 {
        "3"
    } else if d == 4 {
        "4"
    } else if d == 5 {
        "5"
    } else if d == 6 {
        "6"
    } else if d == 7 {
        "7"
    } else if d == 8 {
        "8"
    } else {
        "9"
    }
}

/// The decimal text of `n`.
pub fn decimal_text(n: u128) -> (r: String)
    ensures
        r@ == decimal(n as nat),
    decreases n,
{
    if n < 10 {
        String::from_str(digit_text(n))
    } else {
        let mut r = decimal_text(n / 10);
        r.append(digit_text(n % 10));
        r
    }
}

/// The URL that lists the tournaments of `format`. The format is inserted as given.
pub fn tournaments_url(format: &str) -> (r: String)
    ensures
        r@ == tournaments_url_spec(format@),
{
    let mut r = String::from_str("https://play.limitlesstcg.com/api/tournaments?format=");
    r.append(format);
    r.append("&limit=");
    let limit = decimal_text(MAX_PAGE_SIZE);
    r.append(limit.as_str());
    r
}

/// The URL of the standings of the tournament `id`.
pub fn standings_url(id: &str) -> (r: String)
    ensures
        r@ == standings_url_spec(id@),
{
    let mut r = String::from_str("https://play.limitlesstcg.com/api/tournaments/");
    r.append(id);
    r.append("/standings");
    r
}

} // verus!
