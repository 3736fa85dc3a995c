use vstd::prelude::*;

verus! {

/// Joins two path components with a single `/`: an empty base yields the
/// component itself, and a base that already ends in `/` gets no second one.
pub open spec fn path_join(base: Seq<char>, part: Seq<char>) -> Seq<char> {
    if base.len() == 0 {
        part
    } else if base.last() == '/' {
        base + part
    } else {
        base + seq!['/'] + part
    }
}

/// A path built from a base and a list of components, joined left to right.
pub open spec fn path_of(base: Seq<char>, parts: Seq<Seq<char>>) -> Seq<char>
    decreases parts.len(),
{
    if parts.len() == 0 {
        base
    } else {
        path_join(path_of(base, parts.drop_last()), parts.last())
    }
}

/// `s` without any of its leading `v` characters.
pub open spec fn trim_leading_v(s: Seq<char>) -> Seq<char>
    decreases s.len(),
{
    if s.len() > 0 && s[0] == 'v' {
        trim_leading_v(s.drop_first())
    } else {
        s
    }
}

/// The decimal digit that stands for `d`.
pub open spec fn digit_char(d: nat) -> char {
    if d == 0 { '0' }
    else if d == 1 { '1' }
    else if d == 2 { '2' }
    else if d == 3 { '3' }
    else if d == 4 { '4' }
    else if d == 5 { '5' }
    else if d == 6 { '6' }
    else if d == 7 { '7' }
    else if d == 8 { '8' }
    else { '9' }
}

/// The decimal notation of `n`, without leading zeros.
pub open spec fn decimal(n: nat) -> Seq<char>
    decreases n,
{
    if n < 10 {
        seq![digit_char(n)]
    } else {
        decimal(n / 10).push(digit_char(n % 10))
    }
}

/// The words of `ws` with `sep` between each two of them.
pub open spec fn join_words(ws: Seq<Seq<char>>, sep: Seq<char>) -> Seq<char>
    decreases ws.len(),
{
    if ws.len() == 0 {
        Seq::empty()
    } else if ws.len() == 1 {
        ws[0]
    } else {
        join_words(ws.drop_last(), sep) + sep + ws.last()
    }
}

/// Appends `part` to the path `base`, as `path_join` describes.
pub fn join(base: &str, part: &str) -> (r: String)
    ensures
        r@ == path_join(base@, part@),
{
    let n = base.unicode_len();
    if n == 0 {
        part.to_owned()
    } else if base.get_char(n - 1) == '/' {
        base.to_owned().concat(part)
    } else {
        proof {
            reveal_strlit("/");
            assert("/"@ =~= seq!['/']);
        }
        base.to_owned().concat("/").concat(part)
    }
}

/// Appends each component of `parts` to `base` in turn.
pub fn join_all(base: &str, parts: &Vec<&str>) -> (r: String)
    ensures
        r@ == path_of(base@, parts@.map_values(|p: &str| p@)),
{
    let mut acc = base.to_owned();
    let mut i: usize = 0;
    while i < parts.len()
        invariant
            i <= parts.len(),
            acc@ == path_of(base@, parts@.subrange(0, i as int).map_values(|p: &str| p@)),
        decreases parts.len() - i,
    {
        let next = join(acc.as_str(), parts[i]);
        proof {
            let s = parts@.subrange(0, i as int + 1).map_values(|p: &str| p@);
            assert(s.drop_last() =~= parts@.subrange(0, i as int).map_values(|p: &str| p@));
        }
        acc = next;
        i = i + 1;
    }
    proof {
        assert(parts@.subrange(0, parts.len() as int) =~= parts@);
    }
    acc
}

/// Removes every leading `v` of a version tag (`v1.3.5` becomes `1.3.5`).
pub fn trim_version(version: &str) -> (r: String)
    ensures
        r@ == trim_leading_v(version@),
{
    let n = version.unicode_len();
    let mut i: usize = 0;
    assert(version@.subrange(0, n as int) =~= version@);
    while i < n && version.get_char(i) == 'v'
        invariant
            n == version@.len(),
            i <= n,
            trim_leading_v(version@) == trim_leading_v(version@.subrange(i as int, n as int)),
        decreases n - i,
    {
        proof {
            let s = version@.subrange(i as int, n as int);
            assert(s.drop_first() =~= version@.subrange(i as int + 1, n as int));
        }
        i = i + 1;
    }
    proof {
        let s = version@.subrange(i as int, n as int);
        assert(s.len() == 0 || s[0] != 'v');
    }
    version.substring_char(i, n).to_owned()
}

fn digit_str(d: u32) -> (r: &'static str)
    requires
        d < 10,
    ensures
        r@ == seq![digit_char(d as nat)],
{
    proof {
        reveal_strlit("0");
        reveal_strlit("1");
        reveal_strlit("2");
        reveal_strlit("3");
        reveal_strlit("4");
        reveal_strlit("5");
        reveal_strlit("6");
        reveal_strlit("7");
        reveal_strlit("8");
        reveal_strlit("9");
    }
    let r = if d == 0 { "0" }
    else if d == 1 { "1" }
    else if d == 2 { "2" }
    else if d == 3 { "3" }
    else if d == 4 { "4" }
    else if d == 5 { "5" }
    else if d == 6 { "6" }
    else if d == 7 { "7" }
    else if d == 8 { "8" }
    else { "9" };
    assert(r@ =~= seq![digit_char(d as nat)]);
    r
}

/// The decimal notation of `n`.
pub fn decimal_string(n: u32) -> (r: String)
    ensures
        r@ == decimal(n as nat),
    decreases n,
{
    if n < 10 {
        digit_str(n).to_owned()
    } else {
        let head = decimal_string(n / 10);
        let r = head.concat(digit_str(n % 10));
        assert(r@ =~= decimal((n / 10) as nat).push(digit_char((n % 10) as nat)));
        r
    }
}

/// Joins `words` with `sep` between each two of them.
pub fn join_strings(words: &Vec<String>, sep: &str) -> (r: String)
    ensures
        r@ == join_words(words@.map_values(|w: String| w@), sep@),
{
    let mut acc = String::new();
    let mut i: usize = 0;
    while i < words.len()
        invariant
            i <= words.len(),
            acc@ == join_words(words@.subrange(0, i as int).map_values(|w: String| w@), sep@),
        decreases words.len() - i,
    {
        let ghost prev = words@.subrange(0, i as int).map_values(|w: String| w@);
        let ghost s = words@.subrange(0, i as int + 1).map_values(|w: String| w@);
        proof {
            assert(s.drop_last() =~= prev);
        }
        if i == 0 {
            acc = words[i].clone();
            proof {
                assert(s.len() == 1);
            }
        } else {
            acc = acc.concat(sep).concat(words[i].as_str());
        }
        i = i + 1;
    }
    proof {
        assert(words@.subrange(0, words.len() as int) =~= words@);
    }
    acc
}

} // verus!
