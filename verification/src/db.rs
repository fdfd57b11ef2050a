//! The relayer whitelist with which the database is seeded.
use vstd::prelude::*;
use vstd::string::*;
use crate::text::{
    ascii_lowercase, is_ascii_text, lemma_ascii_lowercase, lemma_trim_ascii, lowercase_of, to_lowercase, trim, trim_chars,
};

verus! {

/// The pieces of `s` between occurrences of `sep`, as `str::split` yields them:
/// always at least one, empty pieces included.
pub open spec fn split_chars(s: Seq<char>, sep: char) -> Seq<Seq<char>>
    decreases s.len(),
{
    if s.len() == 0 {
        seq![Seq::empty()]
    } else {
        let rest = split_chars(s.drop_last(), sep);
        if s.last() == sep {
            rest.push(Seq::empty())
        } else {
            rest.update(rest.len() - 1, rest.last().push(s.last()))
        }
    }
}

pub proof fn lemma_split_nonempty(s: Seq<char>, sep: char)
    ensures
        split_chars(s, sep).len() >= 1,
    decreases s.len(),
{
    if s.len() > 0 {
        lemma_split_nonempty(s.drop_last(), sep);
    }
}

/// The texts of a list of strings.
pub open spec fn texts_of(v: Seq<String>) -> Seq<Seq<char>> {
    v.map_values(|p: String| p@)
}

/// Splits `s` at every `sep`.
pub fn split(s: &str, sep: char) -> (res: Vec<String>)
    ensures
        texts_of(res@) == split_chars(s@, sep),
{
    let n = s.unicode_len();
    let mut pieces: Vec<String> = Vec::new();
    let mut start: usize = 0;
    let mut i: usize = 0;
    assert(s@.subrange(0, 0) =~= Seq::<char>::empty());
    assert(texts_of(pieces@) + seq![s@.subrange(0, 0)] =~= split_chars(s@.subrange(0, 0), sep));
    while i < n
        invariant
            n == s@.len(),
            start <= i <= n,
            texts_of(pieces@) + seq![s@.subrange(start as int, i as int)] == split_chars(
                s@.subrange(0, i as int),
                sep,
            ),
        decreases n - i,
    {
        let c = s.get_char(i);
        let ghost before = texts_of(pieces@);
        let ghost prefix = s@.subrange(0, i as int);
        let ghost next = s@.subrange(0, i + 1);
        assert(next.drop_last() =~= prefix);
        assert(next.last() == c);
        if c == sep {
            let piece = String::from_str(s.substring_char(start, i));
            pieces.push(piece);
            assert(texts_of(pieces@) =~= before.push(s@.subrange(start as int, i as int)));
            start = i + 1;
            assert(s@.subrange(start as int, i + 1) =~= Seq::<char>::empty());
            assert(texts_of(pieces@) + seq![s@.subrange(start as int, i + 1)] =~= split_chars(
                next,
                sep,
            ));
        } else {
            assert(s@.subrange(start as int, i + 1) =~= s@.subrange(start as int, i as int).push(c));
            assert(texts_of(pieces@) + seq![s@.subrange(start as int, i + 1)] =~= split_chars(
                next,
                sep,
            ));
        }
        i = i + 1;
    }
    let ghost before = texts_of(pieces@);
    let last = String::from_str(s.substring_char(start, n));
    pieces.push(last);
    assert(texts_of(pieces@) =~= before + seq![s@.subrange(start as int, n as int)]);
    assert(s@.subrange(0, n as int) =~= s@);
    pieces
}

/// A relayer to be registered: its address and display name.
pub struct RelayerSeed {
    pub address: String,
    pub name: String,
}

/// The relayer that one whitelist item names: `address:name`, both trimmed, the
/// address lower-cased and the name `UnnamedRelayer` where none is given; a blank
/// item or one with a blank address names none.
pub open spec fn seed_of(item: Seq<char>) -> Option<(Seq<char>, Seq<char>)> {
    let t = trim_chars(item);
    if t.len() == 0 {
        None
    } else {
        let parts = split_chars(t, ':');
        let address = lowercase_of(trim_chars(parts[0]));
        let name = trim_chars(
            if parts.len() > 1 {
                parts[1]
            } else {
                "UnnamedRelayer"@
            },
        );
        if address.len() == 0 {
            None
        } else {
            Some((address, name))
        }
    }
}

/// The relayers that a list of whitelist items names, in order.
pub open spec fn seeds_of(items: Seq<Seq<char>>) -> Seq<(Seq<char>, Seq<char>)>
    decreases items.len(),
{
    if items.len() == 0 {
        Seq::empty()
    } else {
        let prev = seeds_of(items.drop_last());
        match seed_of(items.last()) {
            Some(x) => prev.push(x),
            None => prev,
        }
    }
}

/// The relayers that a comma-separated whitelist names.
pub open spec fn whitelist_seeds(raw: Seq<char>) -> Seq<(Seq<char>, Seq<char>)> {
    seeds_of(split_chars(raw, ','))
}

/// For an ASCII whitelist item, the relayer it names: as `seed_of`, with the
/// address lower-cased letter by letter.
pub open spec fn ascii_seed_of(item: Seq<char>) -> Option<(Seq<char>, Seq<char>)> {
    let t = trim_chars(item);
    if t.len() == 0 {
        None
    } else {
        let parts = split_chars(t, ':');
        let address = ascii_lowercase(trim_chars(parts[0]));
        let name = trim_chars(
            if parts.len() > 1 {
                parts[1]
            } else {
                "UnnamedRelayer"@
            },
        );
        if address.len() == 0 {
            None
        } else {
            Some((address, name))
        }
    }
}

/// The relayers that a list of ASCII whitelist items names, in order.
pub open spec fn ascii_seeds_of(items: Seq<Seq<char>>) -> Seq<(Seq<char>, Seq<char>)>
    decreases items.len(),
{
    if items.len() == 0 {
        Seq::empty()
    } else {
        let prev = ascii_seeds_of(items.drop_last());
        match ascii_seed_of(items.last()) {
            Some(x) => prev.push(x),
            None => prev,
        }
    }
}

/// Every piece of an ASCII text split at a separator is ASCII.
pub proof fn lemma_split_ascii(s: Seq<char>, sep: char)
    requires
        is_ascii_text(s),
    ensures
        forall|k: int|
            0 <= k < split_chars(s, sep).len() ==> is_ascii_text(#[trigger] split_chars(s, sep)[k]),
    decreases s.len(),
{
    if s.len() > 0 {
        let t = s.drop_last();
        assert forall|i: int| 0 <= i < t.len() implies ((#[trigger] t[i]) as u32) < 128 by {
            assert(t[i] == s[i]);
        }
        lemma_split_ascii(t, sep);
        lemma_split_nonempty(t, sep);
        let rest = split_chars(t, sep);
        assert((s[s.len() - 1] as u32) < 128);
        if s.last() != sep {
            let last = rest.last().push(s.last());
            assert(is_ascii_text(rest[rest.len() - 1]));
            assert forall|i: int| 0 <= i < last.len() implies ((#[trigger] last[i]) as u32) < 128 by {
                if i < last.len() - 1 {
                    assert(last[i] == rest.last()[i]);
                }
            }
        }
    }
}

/// The address and name of each seed.
pub open spec fn seed_pairs(v: Seq<RelayerSeed>) -> Seq<(Seq<char>, Seq<char>)> {
    v.map_values(|r: RelayerSeed| (r.address@, r.name@))
}

fn seed_from_item(item: &str) -> (res: Option<RelayerSeed>)
    ensures
        match res {
            Some(r) => seed_of(item@) == Some((r.address@, r.name@)),
            None => seed_of(item@) is None,
        },
        is_ascii_text(item@) ==> match res {
            Some(r) => ascii_seed_of(item@) == Some((r.address@, r.name@)),
            None => ascii_seed_of(item@) is None,
        },
{
    let t = trim(item);
    if t.unicode_len() == 0 {
        return None;
    }
    let parts = split(t, ':');
    proof {
        lemma_split_nonempty(t@, ':');
    }
    assert(parts@[0]@ == texts_of(parts@)[0]);
    proof {
        if is_ascii_text(item@) {
            lemma_trim_ascii(item@);
            lemma_split_ascii(t@, ':');
            lemma_trim_ascii(parts@[0]@);
        }
    }
    let address = to_lowercase(trim(parts[0].as_str()));
    let name_source: &str = if parts.len() > 1 {
        assert(parts@[1]@ == texts_of(parts@)[1]);
        parts[1].as_str()
    } else {
        "UnnamedRelayer"
    };
    let name = String::from_str(trim(name_source));
    if address.unicode_len() == 0 {
        None
    } else {
        Some(RelayerSeed { address, name })
    }
}

/// The relayers that a comma-separated `address:name` whitelist names.
pub fn parse_relayer_whitelist(raw: &str) -> (res: Vec<RelayerSeed>)
    ensures
        seed_pairs(res@) == whitelist_seeds(raw@),
        is_ascii_text(raw@) ==> seed_pairs(res@) == ascii_seeds_of(split_chars(raw@, ',')),
{
    let items = split(raw, ',');
    let n = items.len();
    let mut seeds: Vec<RelayerSeed> = Vec::new();
    let mut i: usize = 0;
    assert(texts_of(items@).take(0) =~= Seq::<Seq<char>>::empty());
    proof {
        if is_ascii_text(raw@) {
            lemma_split_ascii(raw@, ',');
        }
    }
    while i < n
        invariant
            n == items@.len(),
            i <= n,
            texts_of(items@) == split_chars(raw@, ','),
            seed_pairs(seeds@) == seeds_of(texts_of(items@).take(i as int)),
            is_ascii_text(raw@) ==> seed_pairs(seeds@) == ascii_seeds_of(texts_of(items@).take(i as int)),
            is_ascii_text(raw@) ==> forall|k: int|
                0 <= k < n ==> is_ascii_text(#[trigger] texts_of(items@)[k]),
        decreases n - i,
    {
        let ghost prev = seed_pairs(seeds@);
        let ghost taken = texts_of(items@).take(i + 1);
        assert(taken.drop_last() =~= texts_of(items@).take(i as int));
        assert(taken.last() == items@[i as int]@);
        match seed_from_item(items[i].as_str()) {
            Some(seed) => {
                seeds.push(seed);
                assert(seed_pairs(seeds@) =~= prev.push((seed.address@, seed.name@)));
            },
            None => {
                assert(seed_pairs(seeds@) =~= prev);
            },
        }
        i = i + 1;
    }
    assert(texts_of(items@).take(n as int) =~= texts_of(items@));
    seeds
}

/// The whitelist used when none is configured.
pub open spec fn default_whitelist() -> Seq<char> {
    "0x1111111111111111111111111111111111111111:RelayOne,0x2222222222222222222222222222222222222222:RelayTwo"@
}

/// The configured whitelist, or the default one where none is configured.
pub fn relayer_whitelist_or_default(configured: Option<String>) -> (res: String)
    ensures
        res@ == match configured {
            Some(w) => w@,
            None => default_whitelist(),
        },
{
    match configured {
        Some(w) => w,
        None => String::from_str(
            "0x1111111111111111111111111111111111111111:RelayOne,0x2222222222222222222222222222222222222222:RelayTwo",
        ),
    }
}

/// Every relayer named by a whitelist has a non-empty, lower-cased address taken
/// from one of its items.
pub proof fn lemma_seeds_have_addresses(items: Seq<Seq<char>>)
    ensures
        forall|k: int|
            0 <= k < seeds_of(items).len() ==> (#[trigger] seeds_of(items)[k]).0.len() > 0
                && exists|j: int|
                0 <= j < items.len() && seed_of(items[j]) == Some(seeds_of(items)[k]),
    decreases items.len(),
{
    if items.len() > 0 {
        let prev_items = items.drop_last();
        lemma_seeds_have_addresses(prev_items);
        let prev = seeds_of(prev_items);
        assert forall|k: int| 0 <= k < seeds_of(items).len() implies (#[trigger] seeds_of(
            items,
        )[k]).0.len() > 0 && exists|j: int|
            0 <= j < items.len() && seed_of(items[j]) == Some(seeds_of(items)[k]) by {
            if k < prev.len() {
                assert(seeds_of(items)[k] == prev[k]);
                let j = choose|j: int| 0 <= j < prev_items.len() && seed_of(prev_items[j]) == Some(prev[k]);
                assert(items[j] == prev_items[j]);
            } else {
                assert(seed_of(items.last()) == Some(seeds_of(items)[k]));
                assert(items[items.len() - 1] == items.last());
            }
        }
    }
}

/// Every relayer named by a whitelist text has a non-empty address.
pub proof fn lemma_whitelist_addresses_nonempty(raw: Seq<char>)
    ensures
        forall|k: int|
            0 <= k < whitelist_seeds(raw).len() ==> (#[trigger] whitelist_seeds(raw)[k]).0.len() > 0,
{
    lemma_seeds_have_addresses(split_chars(raw, ','));
}


/// A whitelist address written without capitals is registered exactly as written,
/// trimmed: lower-casing leaves it alone.
pub proof fn lemma_lowercase_address_kept(item: Seq<char>)
    requires
        ascii_seed_of(item) is Some,
        forall|i: int|
            0 <= i < trim_chars(split_chars(trim_chars(item), ':')[0]).len() ==> !(65
                <= (#[trigger] trim_chars(split_chars(trim_chars(item), ':')[0])[i]) as u32
                && trim_chars(split_chars(trim_chars(item), ':')[0])[i] as u32 <= 90),
    ensures
        ascii_seed_of(item).unwrap().0 == trim_chars(split_chars(trim_chars(item), ':')[0]),
{
    lemma_ascii_lowercase(trim_chars(split_chars(trim_chars(item), ':')[0]));
}

} // verus!
