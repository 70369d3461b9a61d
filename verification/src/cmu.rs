//! The phonetic bridge from English words to kana.
//!
//! An English word is looked up, upper-cased, in a pronouncing
//! dictionary, giving a whitespace-separated list of phone codes.
//! Each phone loses a trailing stress digit, if it carries one, and is
//! mapped through a phone-to-phonetic-token table.  The concatenated
//! tokens form a pseudo-romaji string that runs through the segmenter
//! in English-phoneme mode and then through a kana renderer.  Both
//! dictionaries are supplied by the caller as tables; reading them
//! from disk is no concern of this crate.

use vstd::prelude::*;
use crate::chars::is_letter;
use crate::chars::is_space;
use crate::chars::letter;
use crate::chars::space;
use crate::chars::upper_seq;
use crate::chars::to_upper_char;
use crate::chars::push_char;
use crate::chars::pop_char;
use crate::table::Table;
use crate::table::assoc_get;
use crate::trans::spec_segment;
use crate::trans::render_from;
use crate::trans::render_kata_from;
use crate::trans::to_hiragana;
use crate::trans::to_katakana;
use crate::conv::hiragana_pairs;
use crate::conv::katakana_pairs;

verus! {

/// Splitting a string on whitespace, scanned from position `i` with
/// the current field and the fields found so far.
pub open spec fn split_ws_from(
    s: Seq<char>,
    i: int,
    cur: Seq<char>,
    acc: Seq<Seq<char>>,
) -> Seq<Seq<char>>
    decreases s.len() - i,
{
    if i < 0 || i >= s.len() {
        if cur.len() > 0 {
            acc.push(cur)
        } else {
            acc
        }
    } else if is_space(s[i]) {
        split_ws_from(s, i + 1, Seq::empty(), if cur.len() > 0 {
            acc.push(cur)
        } else {
            acc
        })
    } else {
        split_ws_from(s, i + 1, cur.push(s[i]), acc)
    }
}

/// The whitespace-separated fields of a string.
pub open spec fn split_ws(s: Seq<char>) -> Seq<Seq<char>> {
    split_ws_from(s, 0, Seq::empty(), Seq::empty())
}

/// Whether a phone carries a stress marker: some non-letter
/// character, which the dictionary writes as a trailing digit.
pub open spec fn has_stress(p: Seq<char>) -> bool {
    exists|j: int| 0 <= j < p.len() && !is_letter(p[j])
}

/// A phone without its stress marker: the marker always stands at the
/// end, so the last character is dropped.
pub open spec fn strip_stress(p: Seq<char>) -> Seq<char> {
    if has_stress(p) && p.len() > 0 {
        p.drop_last()
    } else {
        p
    }
}

/// Mapping a list of phones through the phone-to-token table; one
/// missing phone fails the whole list.
pub open spec fn map_phones_from(
    phones: Seq<Seq<char>>,
    pairs: Seq<(Seq<char>, Seq<char>)>,
    acc: Seq<Seq<char>>,
) -> Option<Seq<Seq<char>>>
    decreases phones.len(),
{
    if phones.len() == 0 {
        Some(acc)
    } else {
        match assoc_get(pairs, strip_stress(phones[0])) {
            Some(tok) => map_phones_from(phones.drop_first(), pairs, acc.push(tok)),
            None => None,
        }
    }
}

/// The phonetic tokens for an English word: the word is upper-cased
/// and looked up in the pronouncing dictionary, and each of its
/// phones is stress-stripped and mapped.
pub open spec fn eng_to_jap_spec(
    word: Seq<char>,
    cmu: Seq<(Seq<char>, Seq<char>)>,
    jap: Seq<(Seq<char>, Seq<char>)>,
) -> Option<Seq<Seq<char>>> {
    match assoc_get(cmu, upper_seq(word)) {
        Some(ph) => map_phones_from(split_ws(ph), jap, Seq::empty()),
        None => None,
    }
}

/// The concatenation of a token sequence.
pub open spec fn concat_tokens(ts: Seq<Seq<char>>) -> Seq<char>
    decreases ts.len(),
{
    if ts.len() == 0 {
        Seq::empty()
    } else {
        ts[0] + concat_tokens(ts.drop_first())
    }
}

/// The whole bridge for hiragana, ending in the kana renderer.
pub open spec fn cmu_hiragana_spec(
    word: Seq<char>,
    cmu: Seq<(Seq<char>, Seq<char>)>,
    jap: Seq<(Seq<char>, Seq<char>)>,
) -> Option<Seq<char>> {
    match eng_to_jap_spec(word, cmu, jap) {
        Some(toks) => render_from(
            spec_segment(concat_tokens(toks), true),
            hiragana_pairs(),
            Seq::empty(),
        ),
        None => None,
    }
}

/// The whole bridge for katakana.
pub open spec fn cmu_katakana_spec(
    word: Seq<char>,
    cmu: Seq<(Seq<char>, Seq<char>)>,
    jap: Seq<(Seq<char>, Seq<char>)>,
) -> Option<Seq<char>> {
    match eng_to_jap_spec(word, cmu, jap) {
        Some(toks) => render_kata_from(
            spec_segment(concat_tokens(toks), true),
            katakana_pairs(),
            Seq::empty(),
            ' ',
        ),
        None => None,
    }
}

/// Takes an English word and the two phone tables and returns the
/// phonetic tokens, ready for the segmenter; a word absent from the
/// pronouncing dictionary and a phone absent from the token table are
/// distinct errors.
pub fn eng_to_jap(word: &str, cmu_map: &Table, jap_map: &Table) -> (r: Result<Vec<String>, String>)
    ensures
        match r {
            Ok(out) => eng_to_jap_spec(word@, cmu_map@, jap_map@) == Some(out.deep_view()),
            Err(e) => (eng_to_jap_spec(word@, cmu_map@, jap_map@) is None) && match assoc_get(
                cmu_map@,
                upper_seq(word@),
            ) {
                None => e@ == "not found in cmu"@,
                Some(ph) => (map_phones_from(split_ws(ph), jap_map@, Seq::empty()) is None)
                    && e@ == "not in japanese-ready dictionary"@,
            },
        },
{
    // Upper-case the word for the dictionary lookup.
    let n = word.unicode_len();
    let mut upper = String::new();
    proof {
        assert(upper@ =~= upper_seq(word@).take(0));
    }
    let mut i: usize = 0;
    while i < n
        invariant
            i <= n,
            n == word@.len(),
            upper@ == upper_seq(word@).take(i as int),
        decreases n - i,
    {
        push_char(&mut upper, to_upper_char(word.get_char(i)));
        proof {
            assert(upper@ =~= upper_seq(word@).take(i as int + 1));
        }
        i = i + 1;
    }
    proof {
        assert(upper_seq(word@).take(n as int) =~= upper_seq(word@));
    }

    let phones_str = match cmu_map.get(upper.as_str()) {
        Some(p) => p,
        None => {
            return Err(String::from_str("not found in cmu"));
        },
    };
    let ghost ph = phones_str@;

    // Split the phone string on whitespace.
    let ps = phones_str.as_str();
    let m = ps.unicode_len();
    let mut phones: Vec<String> = Vec::new();
    let mut cur = String::new();
    proof {
        assert(phones.deep_view() =~= Seq::<Seq<char>>::empty());
        assert(cur@ =~= Seq::<char>::empty());
    }
    let mut j: usize = 0;
    while j < m
        invariant
            j <= m,
            m == ph.len(),
            ph == ps@,
            split_ws(ph) == split_ws_from(ph, j as int, cur@, phones.deep_view()),
        decreases m - j,
    {
        let c = ps.get_char(j);
        let ghost pre_cur = cur@;
        let ghost pre_phones = phones.deep_view();
        if space(c) {
            if cur.as_str().unicode_len() > 0 {
                phones.push(cur);
                cur = String::new();
                proof {
                    assert(phones.deep_view() =~= pre_phones.push(pre_cur));
                }
            } else {
                proof {
                    assert(pre_cur =~= Seq::<char>::empty());
                }
            }
            proof {
                assert(cur@ =~= Seq::<char>::empty());
            }
        } else {
            push_char(&mut cur, c);
            proof {
                assert(cur@ == pre_cur.push(ph[j as int]));
            }
        }
        proof {
            assert(split_ws_from(ph, j as int, pre_cur, pre_phones) == split_ws_from(
                ph,
                j as int + 1,
                cur@,
                phones.deep_view(),
            ));
        }
        j = j + 1;
    }
    let ghost end_cur = cur@;
    let ghost end_phones = phones.deep_view();
    if cur.as_str().unicode_len() > 0 {
        phones.push(cur);
        proof {
            assert(phones.deep_view() =~= end_phones.push(end_cur));
        }
    }
    proof {
        assert(split_ws(ph) == phones.deep_view());
    }

    // Strip stress markers and map each phone.
    let ghost phs = phones.deep_view();
    let mut out: Vec<String> = Vec::new();
    proof {
        assert(out.deep_view() =~= Seq::<Seq<char>>::empty());
        assert(phs.skip(0) =~= phs);
    }
    let mut k: usize = 0;
    while k < phones.len()
        invariant
            k <= phones@.len(),
            phs == phones.deep_view(),
            phs.len() == phones@.len(),
            assoc_get(cmu_map@, upper_seq(word@)) == Some(ph),
            phs == split_ws(ph),
            map_phones_from(phs, jap_map@, Seq::empty()) == map_phones_from(
                phs.skip(k as int),
                jap_map@,
                out.deep_view(),
            ),
        decreases phones@.len() - k,
    {
        let ghost rest = phs.skip(k as int);
        proof {
            assert(rest[0] == phs[k as int]);
            assert(rest.drop_first() =~= phs.skip(k as int + 1));
            assert(phones@[k as int]@ == phs[k as int]);
        }
        let p = &phones[k];
        let pstr = p.as_str();
        let plen = pstr.unicode_len();

        // A stress marker is any non-letter; it always stands at the
        // end of the phone.
        let mut found_stress = false;
        let mut ci: usize = 0;
        while ci < plen
            invariant
                ci <= plen,
                plen == p@.len(),
                pstr@ == p@,
                found_stress == exists|j2: int| 0 <= j2 < ci && !is_letter(p@[j2]),
            decreases plen - ci,
        {
            if !letter(pstr.get_char(ci)) {
                found_stress = true;
                proof {
                    assert(!is_letter(p@[ci as int]));
                }
            }
            proof {
                assert(found_stress == exists|j2: int| 0 <= j2 < ci + 1 && !is_letter(p@[j2]));
            }
            ci = ci + 1;
        }
        proof {
            assert(found_stress == has_stress(p@));
        }

        let mut phonestring = p.clone();
        if found_stress {
            let _ = pop_char(&mut phonestring);
        }
        proof {
            assert(phonestring@ == strip_stress(phs[k as int]));
        }

        match jap_map.get(phonestring.as_str()) {
            Some(tok) => {
                let ghost pre_out = out.deep_view();
                let cloned = tok.clone();
                out.push(cloned);
                proof {
                    assert(out.deep_view() =~= pre_out.push(tok@));
                    assert(map_phones_from(rest, jap_map@, pre_out) == map_phones_from(
                        rest.drop_first(),
                        jap_map@,
                        pre_out.push(tok@),
                    ));
                }
            },
            None => {
                proof {
                    assert(map_phones_from(rest, jap_map@, out.deep_view()) is None);
                }
                return Err(String::from_str("not in japanese-ready dictionary"));
            },
        }
        k = k + 1;
    }
    proof {
        assert(phs.skip(phs.len() as int) =~= Seq::<Seq<char>>::empty());
    }
    Ok(out)
}

/// Joins the tokens into one pseudo-romaji string.
fn join_tokens(toks: &Vec<String>) -> (out: String)
    ensures
        out@ == concat_tokens(toks.deep_view()),
{
    let ghost ts = toks.deep_view();
    let mut out = String::new();
    proof {
        assert(out@ =~= Seq::<char>::empty());
        assert(ts.skip(0) =~= ts);
    }
    let mut i: usize = 0;
    while i < toks.len()
        invariant
            i <= toks@.len(),
            ts == toks.deep_view(),
            ts.len() == toks@.len(),
            concat_tokens(ts) == out@ + concat_tokens(ts.skip(i as int)),
        decreases toks@.len() - i,
    {
        let ghost rest = ts.skip(i as int);
        proof {
            assert(rest[0] == ts[i as int]);
            assert(rest.drop_first() =~= ts.skip(i as int + 1));
            assert(toks@[i as int]@ == ts[i as int]);
        }
        let ghost pre = out@;
        out.append(toks[i].as_str());
        proof {
            assert(concat_tokens(rest) == ts[i as int] + concat_tokens(ts.skip(i as int + 1)));
            assert(pre + concat_tokens(rest) =~= out@ + concat_tokens(ts.skip(i as int + 1)));
        }
        i = i + 1;
    }
    proof {
        assert(ts.skip(ts.len() as int) =~= Seq::<Seq<char>>::empty());
        assert(concat_tokens(Seq::<Seq<char>>::empty()) == Seq::<char>::empty());
        assert(out@ + Seq::<char>::empty() =~= out@);
    }
    out
}

/// The full bridge from an English word to hiragana, with the two
/// phone tables supplied by the caller.
pub fn cmu_hiragana(word: &str, cmu_map: &Table, jap_map: &Table) -> (r: Result<String, String>)
    ensures
        match r {
            Ok(o) => cmu_hiragana_spec(word@, cmu_map@, jap_map@) == Some(o@),
            Err(e) => (cmu_hiragana_spec(word@, cmu_map@, jap_map@) is None),
        },
{
    let toks = match eng_to_jap(word, cmu_map, jap_map) {
        Ok(t) => t,
        Err(e) => {
            return Err(e);
        },
    };
    let temp = join_tokens(&toks);
    to_hiragana(temp.as_str(), true)
}

/// The full bridge from an English word to katakana.
pub fn cmu_katakana(word: &str, cmu_map: &Table, jap_map: &Table) -> (r: Result<String, String>)
    ensures
        match r {
            Ok(o) => cmu_katakana_spec(word@, cmu_map@, jap_map@) == Some(o@),
            Err(e) => (cmu_katakana_spec(word@, cmu_map@, jap_map@) is None),
        },
{
    let toks = match eng_to_jap(word, cmu_map, jap_map) {
        Ok(t) => t,
        Err(e) => {
            return Err(e);
        },
    };
    let temp = join_tokens(&toks);
    to_katakana(temp.as_str(), true)
}

} // verus!
