//! The wire format of the gateway's responses:
//! `application/x-www-form-urlencoded` bodies. A body is `&`-separated
//! pairs, each split at its first `=`; `+` decodes to a space and
//! `%XX` to the character with that (ASCII) code. A body that breaks
//! the grammar decodes to nothing, and the caller reports the raw body.
use vstd::prelude::*;

verus! {

/// The value of a hexadecimal digit character, upper or lower case, or
/// -1 for any other character.
pub open spec fn hex_of(c: char) -> int {
    if c == 'A' || c == 'a' {
        10
    } else if c == 'B' || c == 'b' {
        11
    } else if c == 'C' || c == 'c' {
        12
    } else if c == 'D' || c == 'd' {
        13
    } else if c == 'E' || c == 'e' {
        14
    } else if c == 'F' || c == 'f' {
        15
    } else {
        crate::text::digit_of(c)
    }
}

fn hex_val(c: char) -> (r: i8)
    ensures
        r as int == hex_of(c),
{
    if c == 'A' || c == 'a' {
        10
    } else if c == 'B' || c == 'b' {
        11
    } else if c == 'C' || c == 'c' {
        12
    } else if c == 'D' || c == 'd' {
        13
    } else if c == 'E' || c == 'e' {
        14
    } else if c == 'F' || c == 'f' {
        15
    } else if c == '0' {
        0
    } else if c == '1' {
        1
    } else if c == '2' {
        2
    } else if c == '3' {
        3
    } else if c == '4' {
        4
    } else if c == '5' {
        5
    } else if c == '6' {
        6
    } else if c == '7' {
        7
    } else if c == '8' {
        8
    } else if c == '9' {
        9
    } else {
        -1
    }
}

/// Percent-decode one component: `+` is a space, `%XX` (two hex digits
/// naming an ASCII code) is that character, everything else stands for
/// itself. A stray or malformed escape fails the whole component.
pub open spec fn pct_decode(s: Seq<char>) -> Option<Seq<char>>
    decreases s.len(),
{
    if s.len() == 0 {
        Option::Some(Seq::<char>::empty())
    } else if s[0] == '+' {
        pct_cons(' ', pct_decode(s.skip(1)))
    } else if s[0] == '%' {
        if s.len() >= 3 && hex_of(s[1]) >= 0 && hex_of(s[2]) >= 0 && hex_of(s[1]) * 16 + hex_of(
            s[2],
        ) < 128 {
            pct_cons(((hex_of(s[1]) * 16 + hex_of(s[2])) as u8) as char, pct_decode(s.skip(3)))
        } else {
            Option::None
        }
    } else {
        pct_cons(s[0], pct_decode(s.skip(1)))
    }
}

/// Prepend a decoded character to the rest of a decoding, propagating
/// failure.
pub open spec fn pct_cons(c: char, rest: Option<Seq<char>>) -> Option<Seq<char>> {
    match rest {
        Option::Some(r) => Option::Some(seq![c] + r),
        Option::None => Option::None,
    }
}

/// Percent-decode a component.
pub fn pct_decode_str(s: &str) -> (r: Option<String>)
    ensures
        match r {
            Option::Some(v) => pct_decode(s@) == Option::Some(v@),
            Option::None => pct_decode(s@) is None,
        },
{
    let n = s.unicode_len();
    let mut out = String::new();
    let mut i: usize = 0;
    proof {
        assert(s@.skip(0) =~= s@);
    }
    while i < n
        invariant
            i <= n == s@.len(),
            (match pct_decode(s@.skip(i as int)) {
                Option::Some(rest) => pct_decode(s@) == Option::Some(out@ + rest),
                Option::None => pct_decode(s@) is None,
            }),
        decreases n - i,
    {
        let ghost tail = s@.skip(i as int);
        let ghost out_pre = out@;
        proof {
            assert(tail[0] == s@[i as int]);
        }
        let c = s.get_char(i);
        if c == '+' {
            out.push(' ');
            proof {
                assert(tail.skip(1) =~= s@.skip(i + 1));
                lemma_step(s@, out_pre, ' ', i as int, 1);
            }
            i = i + 1;
        } else if c == '%' {
            if n - i < 3 {
                proof {
                    assert(pct_decode(tail) is None);
                }
                return None;
            }
            let h1 = hex_val(s.get_char(i + 1));
            let h2 = hex_val(s.get_char(i + 2));
            proof {
                assert(tail[1] == s@[i + 1] && tail[2] == s@[i + 2]);
            }
            if h1 < 0 || h2 < 0 || (h1 as i16) * 16 + (h2 as i16) >= 128 {
                proof {
                    assert(pct_decode(tail) is None);
                }
                return None;
            }
            let code: u8 = (h1 as u8) * 16 + (h2 as u8);
            out.push(code as char);
            proof {
                assert(tail.skip(3) =~= s@.skip(i + 3));
                assert(code as int == hex_of(tail[1]) * 16 + hex_of(tail[2]));
                lemma_step(s@, out_pre, code as char, i as int, 3);
            }
            i = i + 3;
        } else {
            out.push(c);
            proof {
                assert(tail.skip(1) =~= s@.skip(i + 1));
                lemma_step(s@, out_pre, c, i as int, 1);
            }
            i = i + 1;
        }
    }
    proof {
        assert(s@.skip(n as int) =~= Seq::<char>::empty());
        assert(out@ + Seq::<char>::empty() =~= out@);
    }
    Some(out)
}

/// One decoding step consumed `width` characters and produced `c`:
/// carrying `c` from the pending suffix into the output preserves the
/// loop's accounting. `out` is the output after the push.
proof fn lemma_step(s: Seq<char>, out_pre: Seq<char>, c: char, i: int, width: int)
    requires
        0 <= i,
        i + width <= s.len(),
        pct_decode(s.skip(i)) == pct_cons(c, pct_decode(s.skip(i + width))),
        (match pct_decode(s.skip(i)) {
            Option::Some(rest) => pct_decode(s) == Option::Some(out_pre + rest),
            Option::None => pct_decode(s) is None,
        }),
    ensures
        (match pct_decode(s.skip(i + width)) {
            Option::Some(rest) => pct_decode(s) == Option::Some(out_pre.push(c) + rest),
            Option::None => pct_decode(s) is None,
        }),
{
    match pct_decode(s.skip(i + width)) {
        Option::Some(rest) => {
            assert(out_pre + (seq![c] + rest) =~= out_pre.push(c) + rest);
        },
        Option::None => {},
    }
}

/// The index of the first occurrence of `c` in `s`, or -1.
pub open spec fn find_char(s: Seq<char>, c: char) -> int
    decreases s.len(),
{
    if s.len() == 0 {
        -1
    } else if s[0] == c {
        0
    } else {
        if find_char(s.skip(1), c) < 0 {
            -1
        } else {
            1 + find_char(s.skip(1), c)
        }
    }
}

/// What `find_char` finds: the first occurrence, or none at all.
pub proof fn lemma_find_char(s: Seq<char>, c: char)
    ensures
        find_char(s, c) == -1 ==> (forall|k: int| 0 <= k < s.len() ==> s[k] != c),
        find_char(s, c) >= 0 ==> 0 <= find_char(s, c) < s.len() && s[find_char(s, c)] == c && (
        forall|k: int| 0 <= k < find_char(s, c) ==> s[k] != c),
    decreases s.len(),
{
    if s.len() > 0 && s[0] != c {
        lemma_find_char(s.skip(1), c);
        assert(forall|k: int| 1 <= k < s.len() ==> s[k] == s.skip(1)[k - 1]);
    }
}

/// Find the first occurrence of `c` in `s`.
pub fn find_char_str(s: &str, c: char) -> (r: Option<usize>)
    ensures
        match r {
            Option::Some(j) => j == find_char(s@, c),
            Option::None => find_char(s@, c) == -1,
        },
{
    let n = s.unicode_len();
    let mut j: usize = 0;
    while j < n
        invariant
            j <= n == s@.len(),
            forall|k: int| 0 <= k < j ==> s@[k] != c,
        decreases n - j,
    {
        if s.get_char(j) == c {
            proof {
                lemma_find_char(s@, c);
            }
            return Some(j);
        }
        j = j + 1;
    }
    proof {
        lemma_find_char(s@, c);
    }
    None
}

/// Split a component at its first `=`: the raw key and raw value, the
/// value empty when there is no `=`. Later `=` signs belong to the
/// value.
pub open spec fn split_pair(p: Seq<char>) -> (Seq<char>, Seq<char>) {
    let f = find_char(p, '=');
    if f < 0 {
        (p, Seq::<char>::empty())
    } else {
        (p.take(f), p.skip(f + 1))
    }
}

/// Decode one `key=value` component.
pub open spec fn decode_pair(p: Seq<char>) -> Option<(Seq<char>, Seq<char>)> {
    let (kr, vr) = split_pair(p);
    match (pct_decode(kr), pct_decode(vr)) {
        (Option::Some(k), Option::Some(v)) => Option::Some((k, v)),
        _ => Option::None,
    }
}

fn decode_pair_str(p: &str) -> (r: Option<(String, String)>)
    ensures
        match r {
            Option::Some(kv) => decode_pair(p@) == Option::Some((kv.0@, kv.1@)),
            Option::None => decode_pair(p@) is None,
        },
{
    let n = p.unicode_len();
    let (kr, vr) = match find_char_str(p, '=') {
        Option::Some(f) => {
            proof {
                lemma_find_char(p@, '=');
            }
            let kr = p.substring_char(0, f);
            let vr = p.substring_char(f + 1, n);
            proof {
                assert(kr@ =~= split_pair(p@).0);
                assert(vr@ =~= split_pair(p@).1);
            }
            (kr, vr)
        },
        Option::None => (p, ""),
    };
    proof {
        reveal_strlit("");
        assert(""@ =~= Seq::<char>::empty());
    }
    let k = match pct_decode_str(kr) {
        Option::Some(k) => k,
        Option::None => {
            return None;
        },
    };
    let v = match pct_decode_str(vr) {
        Option::Some(v) => v,
        Option::None => {
            return None;
        },
    };
    Some((k, v))
}

/// The `&`-separated components of a body; an empty body has one empty
/// component.
pub open spec fn split_form(s: Seq<char>) -> Seq<Seq<char>>
    decreases s.len(),
{
    let f = find_char(s, '&');
    if f < 0 || f >= s.len() {
        seq![s]
    } else {
        seq![s.take(f)] + split_form(s.skip(f + 1))
    }
}

/// Decode every component, failing if any fails.
pub open spec fn decode_pairs(ps: Seq<Seq<char>>) -> Option<Seq<(Seq<char>, Seq<char>)>>
    decreases ps.len(),
{
    if ps.len() == 0 {
        Option::Some(Seq::<(Seq<char>, Seq<char>)>::empty())
    } else {
        match (decode_pair(ps[0]), decode_pairs(ps.skip(1))) {
            (Option::Some(kv), Option::Some(rest)) => Option::Some(seq![kv] + rest),
            _ => Option::None,
        }
    }
}

/// The decoded field list of a form-encoded body.
pub open spec fn spec_decode_form(s: Seq<char>) -> Option<Seq<(Seq<char>, Seq<char>)>> {
    decode_pairs(split_form(s))
}

/// The character sequences of a decoded field list.
pub open spec fn pairs_view(v: Seq<(String, String)>) -> Seq<(Seq<char>, Seq<char>)> {
    Seq::new(v.len(), |i: int| (v[i].0@, v[i].1@))
}

/// Decode a form-encoded body into its field list, in wire order.
pub fn decode_form(s: &str) -> (r: Option<Vec<(String, String)>>)
    ensures
        match r {
            Option::Some(v) => spec_decode_form(s@) == Option::Some(pairs_view(v@)),
            Option::None => spec_decode_form(s@) is None,
        },
    decreases s@.len(),
{
    let n = s.unicode_len();
    match find_char_str(s, '&') {
        Option::None => {
            match decode_pair_str(s) {
                Option::Some(kv) => {
                    let ghost kvv = (kv.0@, kv.1@);
                    let mut v: Vec<(String, String)> = Vec::new();
                    v.push(kv);
                    proof {
                        assert(split_form(s@) =~= seq![s@]);
                        assert(split_form(s@)[0] == s@);
                        assert(split_form(s@).skip(1) =~= Seq::<Seq<char>>::empty());
                        assert(v@[0].0@ == kvv.0 && v@[0].1@ == kvv.1);
                        assert(decode_pair(s@) == Option::Some(kvv));
                        assert(decode_pairs(split_form(s@).skip(1)) == Option::Some(
                            Seq::<(Seq<char>, Seq<char>)>::empty(),
                        ));
                        assert(decode_pairs(split_form(s@)) == Option::Some(
                            seq![kvv] + Seq::<(Seq<char>, Seq<char>)>::empty(),
                        ));
                        assert(seq![kvv] + Seq::<(Seq<char>, Seq<char>)>::empty() =~= pairs_view(
                            v@,
                        ));
                    }
                    Some(v)
                },
                Option::None => None,
            }
        },
        Option::Some(f) => {
            proof {
                lemma_find_char(s@, '&');
            }
            let piece = s.substring_char(0, f);
            let rest = s.substring_char(f + 1, n);
            proof {
                assert(piece@ =~= s@.take(f as int));
                assert(rest@ =~= s@.skip(f + 1));
            }
            let kv = match decode_pair_str(piece) {
                Option::Some(kv) => kv,
                Option::None => {
                    proof {
                        assert(split_form(s@)[0] == s@.take(f as int));
                    }
                    return None;
                },
            };
            match decode_form(rest) {
                Option::Some(mut v) => {
                    let ghost v0 = v@;
                    let ghost kvv = (kv.0@, kv.1@);
                    v.insert(0, kv);
                    proof {
                        assert(split_form(s@)[0] == s@.take(f as int));
                        assert(split_form(s@).skip(1) =~= split_form(s@.skip(f + 1)));
                        assert(v@.skip(1) =~= v0);
                        assert(pairs_view(v@) =~= seq![kvv] + pairs_view(v0));
                    }
                    Some(v)
                },
                Option::None => {
                    proof {
                        assert(split_form(s@).skip(1) =~= split_form(s@.skip(f + 1)));
                    }
                    None
                },
            }
        },
    }
}

/// How often a key occurs in a decoded field list.
pub open spec fn count_key(ps: Seq<(Seq<char>, Seq<char>)>, k: Seq<char>) -> nat
    decreases ps.len(),
{
    if ps.len() == 0 {
        0
    } else {
        (if ps[0].0 == k {
            1nat
        } else {
            0nat
        }) + count_key(ps.skip(1), k)
    }
}

/// The value of the first occurrence of a key.
pub open spec fn first_val(ps: Seq<(Seq<char>, Seq<char>)>, k: Seq<char>) -> Seq<char>
    decreases ps.len(),
{
    if ps.len() == 0 {
        Seq::<char>::empty()
    } else if ps[0].0 == k {
        ps[0].1
    } else {
        first_val(ps.skip(1), k)
    }
}

/// What looking a field up in a decoded body yields.
pub enum FieldLookup {
    /// The field does not occur.
    Absent,
    /// The field occurs exactly once, with this value.
    One(String),
    /// The field occurs more than once: the body is ambiguous.
    Many,
}

/// Look a field up by name: its value if it occurs exactly once,
/// `Absent` or `Many` otherwise.
pub fn field_of(pairs: &Vec<(String, String)>, name: &str) -> (r: FieldLookup)
    ensures
        (r is Absent <==> count_key(pairs_view(pairs@), name@) == 0),
        (r is Many <==> count_key(pairs_view(pairs@), name@) >= 2),
        (match r {
            FieldLookup::One(v) => count_key(pairs_view(pairs@), name@) == 1 && v@ == first_val(
                pairs_view(pairs@),
                name@,
            ),
            _ => true,
        }),
{
    let ghost ps = pairs_view(pairs@);
    let mut count: usize = 0;
    let mut found: Option<String> = None;
    let mut i: usize = 0;
    while i < pairs.len()
        invariant
            i <= pairs.len(),
            ps == pairs_view(pairs@),
            count <= i,
            count == count_key(ps.take(i as int), name@),
            (match found {
                Option::Some(v) => count >= 1 && v@ == first_val(ps.take(i as int), name@),
                Option::None => count == 0,
            }),
        decreases pairs.len() - i,
    {
        proof {
            lemma_count_push(ps, name@, i as int);
        }
        if crate::text::str_eq(pairs[i].0.as_str(), name) {
            if count == 0 {
                found = Some(pairs[i].1.clone());
            }
            count = count + 1;
            proof {
                lemma_first_val_push(ps, name@, i as int);
            }
        } else {
            proof {
                lemma_first_val_push(ps, name@, i as int);
            }
        }
        i = i + 1;
    }
    proof {
        assert(ps.take(pairs@.len() as int) =~= ps);
    }
    if count == 0 {
        FieldLookup::Absent
    } else if count >= 2 {
        FieldLookup::Many
    } else {
        match found {
            Option::Some(v) => FieldLookup::One(v),
            Option::None => FieldLookup::Absent,
        }
    }
}

proof fn lemma_count_push(ps: Seq<(Seq<char>, Seq<char>)>, k: Seq<char>, i: int)
    requires
        0 <= i < ps.len(),
    ensures
        count_key(ps.take(i + 1), k) == count_key(ps.take(i), k) + (if ps[i].0 == k {
            1nat
        } else {
            0nat
        }),
    decreases i,
{
    if i == 0 {
        assert(ps.take(1).skip(1) =~= Seq::<(Seq<char>, Seq<char>)>::empty());
        assert(ps.take(1)[0] == ps[0]);
        assert(count_key(ps.take(1).skip(1), k) == 0);
        assert(ps.take(0).len() == 0);
        assert(count_key(ps.take(0), k) == 0);
        assert(count_key(ps.take(1), k) == (if ps[0].0 == k {
            1nat
        } else {
            0nat
        }));
    } else {
        lemma_count_push(ps.skip(1), k, i - 1);
        assert(ps.take(i + 1).skip(1) =~= ps.skip(1).take(i));
        assert(ps.take(i).skip(1) =~= ps.skip(1).take(i - 1));
        assert(ps.skip(1)[i - 1] == ps[i]);
        assert(ps.take(i + 1)[0] == ps[0] && ps.take(i)[0] == ps[0]);
        assert(count_key(ps.take(i + 1), k) == (if ps[0].0 == k {
            1nat
        } else {
            0nat
        }) + count_key(ps.skip(1).take(i), k));
        assert(count_key(ps.take(i), k) == (if ps[0].0 == k {
            1nat
        } else {
            0nat
        }) + count_key(ps.skip(1).take(i - 1), k));
    }
}

proof fn lemma_first_val_push(ps: Seq<(Seq<char>, Seq<char>)>, k: Seq<char>, i: int)
    requires
        0 <= i < ps.len(),
    ensures
        count_key(ps.take(i), k) >= 1 ==> first_val(ps.take(i + 1), k) == first_val(ps.take(i), k),
        count_key(ps.take(i), k) == 0 && ps[i].0 == k ==> first_val(ps.take(i + 1), k) == ps[i].1,
    decreases i,
{
    if i == 0 {
        assert(ps.take(1)[0] == ps[0]);
    } else {
        lemma_first_val_push(ps.skip(1), k, i - 1);
        assert(ps.take(i + 1).skip(1) =~= ps.skip(1).take(i));
        assert(ps.take(i).skip(1) =~= ps.skip(1).take(i - 1));
        assert(ps.skip(1)[i - 1] == ps[i]);
        assert(ps.take(i + 1)[0] == ps[0] && ps.take(i)[0] == ps[0]);
    }
}

} // verus!
