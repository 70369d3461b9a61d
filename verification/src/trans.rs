//! Segmentation of Latin text into syllable tokens, and rendering
//! between token sequences, kana and romaji.
//!
//! The segmenter scans the case-folded input one character at a time,
//! keeping a pending-syllable buffer, a two-character digraph window,
//! and flags for a just-seen nasal coda and a just-seen geminate
//! candidate.  Native mode applies the full phonotactic rules; English
//! mode only recombines a consonant with a following vowel, for
//! phoneme strings that are already segmented.

use vstd::prelude::*;
use crate::chars::is_letter;
use crate::chars::is_vowel;
use crate::chars::is_geminate;
use crate::chars::letter;
use crate::chars::vowel;
use crate::chars::geminate;
use crate::chars::lower_seq;
use crate::chars::to_lower_char;
use crate::chars::push_char;
use crate::chars::pop_char;
use crate::chars::str_eq;
use crate::table::assoc_get;
use crate::conv::initialize_hiragana;
use crate::conv::initialize_katakana;
use crate::conv::initialize_hiragana_keys;
use crate::conv::initialize_katakana_keys;
use crate::conv::initilize_roomaji;
use crate::conv::hiragana_pairs;
use crate::conv::katakana_pairs;
use crate::conv::hiragana_keys_spec;
use crate::conv::katakana_keys_spec;
use crate::conv::roomaji_pairs;
use crate::conv::lemma_syllabary_len;

verus! {

/// Dropping the most recent token; popping an empty list changes
/// nothing.
pub open spec fn pop_tok(ts: Seq<Seq<char>>) -> Seq<Seq<char>> {
    if ts.len() == 0 {
        ts
    } else {
        ts.drop_last()
    }
}

/// The two-character windows that the segmenter recognizes as digraph
/// onsets.
pub open spec fn seg_digraphs() -> Seq<Seq<char>> {
    seq!["ky"@, "sh"@, "ch"@, "nq"@, "hy"@, "my"@, "ry"@, "gy"@, "by"@, "py"@]
}

pub open spec fn is_seg_digraph(s: Seq<char>) -> bool {
    seg_digraphs().contains(s)
}

/// The segmenter state in native mode.
pub ghost struct SegState {
    /// The tokens emitted so far.
    pub toks: Seq<Seq<char>>,
    /// The pending syllable buffer.
    pub syl: Seq<char>,
    /// The sliding digraph window.
    pub dig: Seq<char>,
    /// Whether the previous character raised the nasal-coda flag.
    pub nasal: bool,
    /// Whether the previous character was a geminate candidate.
    pub gem: bool,
}

pub open spec fn seg_init() -> SegState {
    SegState {
        toks: Seq::empty(),
        syl: Seq::empty(),
        dig: Seq::empty(),
        nasal: false,
        gem: false,
    }
}

/// The character enters the pending syllable buffer and the digraph
/// window.
pub open spec fn stage_start(st: SegState, c: char) -> SegState {
    SegState { syl: st.syl.push(c), dig: st.dig.push(c), ..st }
}

/// A non-letter flushes as its own token and clears the nasal flag.
pub open spec fn stage_nonletter(st: SegState, c: char) -> SegState {
    if !is_letter(c) {
        SegState { nasal: false, toks: st.toks.push(seq![c]), syl: Seq::empty(), ..st }
    } else {
        st
    }
}

/// A completed digraph window replaces the buffer, retracting a
/// provisional geminate or nasal token that was just pushed.
pub open spec fn stage_digraph(st: SegState) -> SegState {
    if is_seg_digraph(st.dig) {
        let t1 = if st.gem {
            pop_tok(st.toks)
        } else {
            st.toks
        };
        let t2 = if st.nasal {
            pop_tok(t1)
        } else {
            t1
        };
        SegState { toks: t2, syl: st.dig, gem: false, nasal: false, ..st }
    } else {
        st
    }
}

/// An n is pushed as a provisional coda token; any other consonant
/// right after a raised nasal flag starts a fresh syllable buffer.
pub open spec fn stage_nasal(st: SegState, c: char) -> SegState {
    if c == 'n' {
        SegState { nasal: true, toks: st.toks.push(seq![c]), ..st }
    } else if !is_vowel(c) && st.nasal {
        SegState { nasal: false, syl: seq![c], ..st }
    } else {
        st
    }
}

/// Whether the current consonant doubles the provisional geminate
/// token on top of the emitted tokens.
pub open spec fn collapse_hit(st: SegState, c: char) -> bool {
    !is_vowel(c) && st.gem && st.toks.len() > 0 && st.toks.last() == seq![c]
}

/// A doubled consonant collapses: the provisional token becomes the
/// gemination marker and the rest of the step is skipped, so the
/// digraph window does not slide.
pub open spec fn stage_collapse(st: SegState, c: char) -> SegState {
    SegState { toks: st.toks.drop_last().push("G"@), syl: seq![c], gem: false, ..st }
}

/// The doubling did not materialize; the provisional token stays
/// retracted all the same.
pub open spec fn stage_discard(st: SegState, c: char) -> SegState {
    if !is_vowel(c) && st.gem && st.toks.len() > 0 {
        SegState { toks: st.toks.drop_last(), ..st }
    } else {
        st
    }
}

/// A geminate candidate is pushed provisionally and flagged.
pub open spec fn stage_gem_flag(st: SegState, c: char) -> SegState {
    if is_geminate(c) {
        SegState { gem: true, toks: st.toks.push(seq![c]), ..st }
    } else {
        st
    }
}

/// A vowel completes the buffered syllable, retracting any
/// provisional geminate or nasal token first.
pub open spec fn stage_vowel(st: SegState, c: char) -> SegState {
    if is_vowel(c) {
        let t1 = if st.gem {
            pop_tok(st.toks)
        } else {
            st.toks
        };
        let t2 = if st.nasal {
            pop_tok(t1)
        } else {
            t1
        };
        SegState { toks: t2.push(st.syl), syl: Seq::empty(), gem: false, nasal: false, ..st }
    } else {
        st
    }
}

/// The digraph window keeps only the last two characters.
pub open spec fn stage_window(st: SegState, c: char) -> SegState {
    if st.dig.len() >= 2 {
        SegState { dig: seq![c], ..st }
    } else {
        st
    }
}

/// One native-mode step: the rules above, in precedence order.
pub open spec fn seg_step(st: SegState, c: char) -> SegState {
    let st = stage_start(st, c);
    let st = stage_nonletter(st, c);
    let st = stage_digraph(st);
    let st = stage_nasal(st, c);
    if collapse_hit(st, c) {
        stage_collapse(st, c)
    } else {
        let st = stage_discard(st, c);
        let st = stage_gem_flag(st, c);
        let st = stage_vowel(st, c);
        stage_window(st, c)
    }
}

pub open spec fn seg_run(st: SegState, s: Seq<char>) -> SegState
    decreases s.len(),
{
    if s.len() == 0 {
        st
    } else {
        seg_run(seg_step(st, s[0]), s.drop_first())
    }
}

/// The segmenter state in English-phoneme mode.
pub ghost struct EngState {
    pub toks: Seq<Seq<char>>,
    /// The previous character.
    pub prev: char,
}

pub open spec fn eng_init() -> EngState {
    EngState { toks: Seq::empty(), prev: 'a' }
}

/// One English-mode step: a consonant stands alone, and a vowel after
/// a consonant retracts the consonant token and merges with it.
pub open spec fn eng_step(st: EngState, c: char) -> EngState {
    if is_vowel(c) {
        if !is_vowel(st.prev) {
            EngState { toks: pop_tok(st.toks).push(seq![st.prev, c]), prev: c }
        } else {
            EngState { toks: st.toks.push(seq![c]), prev: c }
        }
    } else {
        EngState { toks: st.toks.push(seq![c]), prev: c }
    }
}

pub open spec fn eng_run(st: EngState, s: Seq<char>) -> EngState
    decreases s.len(),
{
    if s.len() == 0 {
        st
    } else {
        eng_run(eng_step(st, s[0]), s.drop_first())
    }
}

/// The token sequence for an input: the input is case folded and run
/// through the state machine of the requested mode.
pub open spec fn spec_segment(s: Seq<char>, is_eng: bool) -> Seq<Seq<char>> {
    if is_eng {
        eng_run(eng_init(), lower_seq(s)).toks
    } else {
        seg_run(seg_init(), lower_seq(s)).toks
    }
}

/// Tests whether the digraph window holds a recognized digraph onset.
fn digraph_window_hit(dig: &str) -> (r: bool)
    ensures
        r == is_seg_digraph(dig@),
{
    let hit = str_eq(dig, "ky") || str_eq(dig, "sh") || str_eq(dig, "ch") || str_eq(dig, "nq")
        || str_eq(dig, "hy") || str_eq(dig, "my") || str_eq(dig, "ry") || str_eq(dig, "gy")
        || str_eq(dig, "by") || str_eq(dig, "py");
    proof {
        if hit {
            assert(is_seg_digraph(dig@));
        } else {
            assert(forall|i: int| 0 <= i < seg_digraphs().len() ==> seg_digraphs()[i] != dig@);
        }
    }
    hit
}

/// Returns the sequence of syllable tokens for the input, in native
/// or English-phoneme mode.
pub fn to_japanese_syllables(input: &str, is_eng: bool) -> (syllables: Vec<String>)
    ensures
        syllables.deep_view() == spec_segment(input@, is_eng),
{
    let n = input.unicode_len();
    let ghost low = lower_seq(input@);
    proof {
        assert(low.len() == input@.len());
    }

    let mut syllables: Vec<String> = Vec::new();
    proof {
        assert(syllables.deep_view() =~= Seq::<Seq<char>>::empty());
        assert(low.skip(0) =~= low);
    }

    if is_eng {
        let mut prevchar: char = 'a';
        let mut i: usize = 0;
        while i < n
            invariant
                i <= n,
                n == input@.len(),
                low == lower_seq(input@),
                eng_run(eng_init(), low) == eng_run(
                    EngState { toks: syllables.deep_view(), prev: prevchar },
                    low.skip(i as int),
                ),
            decreases n - i,
        {
            let ghost pre = EngState { toks: syllables.deep_view(), prev: prevchar };
            let c = to_lower_char(input.get_char(i));
            proof {
                assert(low[i as int] == c);
                assert(low.skip(i as int)[0] == c);
                assert(low.skip(i as int).drop_first() =~= low.skip(i as int + 1));
            }
            if vowel(c) {
                if !vowel(prevchar) {
                    let _ = syllables.pop();
                    let mut t = String::new();
                    push_char(&mut t, prevchar);
                    push_char(&mut t, c);
                    proof {
                        assert(t@ =~= seq![pre.prev, c]);
                    }
                    syllables.push(t);
                    proof {
                        assert(syllables.deep_view() =~= pop_tok(pre.toks).push(
                            seq![pre.prev, c],
                        ));
                    }
                } else {
                    let mut t = String::new();
                    push_char(&mut t, c);
                    proof {
                        assert(t@ =~= seq![c]);
                    }
                    syllables.push(t);
                    proof {
                        assert(syllables.deep_view() =~= pre.toks.push(seq![c]));
                    }
                }
            } else {
                let mut t = String::new();
                push_char(&mut t, c);
                proof {
                    assert(t@ =~= seq![c]);
                }
                syllables.push(t);
                proof {
                    assert(syllables.deep_view() =~= pre.toks.push(seq![c]));
                }
            }
            prevchar = c;
            proof {
                assert(EngState { toks: syllables.deep_view(), prev: prevchar } == eng_step(
                    pre,
                    c,
                ));
            }
            i = i + 1;
        }
        proof {
            assert(low.skip(n as int) =~= Seq::<char>::empty());
        }
    } else {
        let mut temp_syllable = String::new();
        let mut temp_digraph = String::new();
        let mut prev_nasal = false;
        let mut prev_geminate = false;
        let mut i: usize = 0;
        while i < n
            invariant
                i <= n,
                n == input@.len(),
                low == lower_seq(input@),
                seg_run(seg_init(), low) == seg_run(
                    SegState {
                        toks: syllables.deep_view(),
                        syl: temp_syllable@,
                        dig: temp_digraph@,
                        nasal: prev_nasal,
                        gem: prev_geminate,
                    },
                    low.skip(i as int),
                ),
            decreases n - i,
        {
            let ghost pre = SegState {
                toks: syllables.deep_view(),
                syl: temp_syllable@,
                dig: temp_digraph@,
                nasal: prev_nasal,
                gem: prev_geminate,
            };
            let c = to_lower_char(input.get_char(i));
            proof {
                assert(low[i as int] == c);
                assert(low.skip(i as int)[0] == c);
                assert(low.skip(i as int).drop_first() =~= low.skip(i as int + 1));
            }

            push_char(&mut temp_syllable, c);
            push_char(&mut temp_digraph, c);
            let ghost st1 = stage_start(pre, c);
            proof {
                assert(SegState {
                    toks: syllables.deep_view(),
                    syl: temp_syllable@,
                    dig: temp_digraph@,
                    nasal: prev_nasal,
                    gem: prev_geminate,
                } == st1);
            }

            // A non-letter flushes as its own token.
            if !letter(c) {
                prev_nasal = false;
                let mut t = String::new();
                push_char(&mut t, c);
                proof {
                    assert(t@ =~= seq![c]);
                }
                syllables.push(t);
                temp_syllable = String::new();
                proof {
                    assert(syllables.deep_view() =~= st1.toks.push(seq![c]));
                }
            }
            let ghost st2 = stage_nonletter(st1, c);
            proof {
                assert(SegState {
                    toks: syllables.deep_view(),
                    syl: temp_syllable@,
                    dig: temp_digraph@,
                    nasal: prev_nasal,
                    gem: prev_geminate,
                } == st2);
            }

            // A completed digraph window supersedes a provisional
            // geminate or nasal token.
            if digraph_window_hit(temp_digraph.as_str()) {
                if prev_geminate {
                    let _ = syllables.pop();
                    proof {
                        assert(syllables.deep_view() =~= pop_tok(st2.toks));
                    }
                }
                if prev_nasal {
                    let ghost mid = syllables.deep_view();
                    let _ = syllables.pop();
                    proof {
                        assert(syllables.deep_view() =~= pop_tok(mid));
                    }
                }
                temp_syllable = temp_digraph.clone();
                prev_geminate = false;
                prev_nasal = false;
            }
            let ghost st3 = stage_digraph(st2);
            proof {
                assert(SegState {
                    toks: syllables.deep_view(),
                    syl: temp_syllable@,
                    dig: temp_digraph@,
                    nasal: prev_nasal,
                    gem: prev_geminate,
                } == st3);
            }

            // Japanese syllables can end in a final n, so it is pushed
            // provisionally; a consonant right after a raised nasal
            // flag starts a fresh syllable.
            if c == 'n' {
                prev_nasal = true;
                let mut t = String::new();
                push_char(&mut t, c);
                proof {
                    assert(t@ =~= seq![c]);
                }
                syllables.push(t);
                proof {
                    assert(syllables.deep_view() =~= st3.toks.push(seq![c]));
                }
            } else if !vowel(c) && prev_nasal {
                prev_nasal = false;
                temp_syllable = String::new();
                push_char(&mut temp_syllable, c);
                proof {
                    assert(temp_syllable@ =~= seq![c]);
                }
            }
            let ghost st4 = stage_nasal(st3, c);
            proof {
                assert(SegState {
                    toks: syllables.deep_view(),
                    syl: temp_syllable@,
                    dig: temp_digraph@,
                    nasal: prev_nasal,
                    gem: prev_geminate,
                } == st4);
            }

            // A doubled geminate candidate collapses to the
            // gemination marker; the retracted token stays retracted
            // either way.
            let mut collapsed = false;
            if !vowel(c) && prev_geminate {
                match syllables.pop() {
                    Some(temp_char) => {
                        let single = temp_char.as_str().unicode_len() == 1
                            && temp_char.as_str().get_char(0) == c;
                        proof {
                            assert(temp_char@ == st4.toks.last());
                            if single {
                                assert(temp_char@ =~= seq![c]);
                            } else {
                                assert(temp_char@ != seq![c]);
                            }
                            assert(syllables.deep_view() =~= st4.toks.drop_last());
                        }
                        if single {
                            temp_syllable = String::new();
                            syllables.push(String::from_str("G"));
                            push_char(&mut temp_syllable, c);
                            prev_geminate = false;
                            collapsed = true;
                            proof {
                                assert(collapse_hit(st4, c));
                                assert(syllables.deep_view() =~= st4.toks.drop_last().push("G"@));
                                assert(temp_syllable@ =~= seq![c]);
                            }
                        }
                    },
                    None => {},
                }
            }
            proof {
                if collapsed {
                    assert(SegState {
                        toks: syllables.deep_view(),
                        syl: temp_syllable@,
                        dig: temp_digraph@,
                        nasal: prev_nasal,
                        gem: prev_geminate,
                    } == stage_collapse(st4, c));
                    assert(seg_step(pre, c) == stage_collapse(st4, c));
                } else {
                    assert(!collapse_hit(st4, c));
                    assert(SegState {
                        toks: syllables.deep_view(),
                        syl: temp_syllable@,
                        dig: temp_digraph@,
                        nasal: prev_nasal,
                        gem: prev_geminate,
                    } == stage_discard(st4, c));
                }
            }

            if !collapsed {
                let ghost st5 = stage_discard(st4, c);
                if geminate(c) {
                    prev_geminate = true;
                    let mut t = String::new();
                    push_char(&mut t, c);
                    proof {
                        assert(t@ =~= seq![c]);
                    }
                    syllables.push(t);
                    proof {
                        assert(syllables.deep_view() =~= st5.toks.push(seq![c]));
                    }
                }
                let ghost st6 = stage_gem_flag(st5, c);
                proof {
                    assert(SegState {
                        toks: syllables.deep_view(),
                        syl: temp_syllable@,
                        dig: temp_digraph@,
                        nasal: prev_nasal,
                        gem: prev_geminate,
                    } == st6);
                }

                // A vowel completes the buffered syllable, retracting
                // any provisional geminate or nasal token.
                if vowel(c) {
                    if prev_geminate {
                        let _ = syllables.pop();
                        proof {
                            assert(syllables.deep_view() =~= pop_tok(st6.toks));
                        }
                    }
                    if prev_nasal {
                        let ghost mid = syllables.deep_view();
                        let _ = syllables.pop();
                        prev_nasal = false;
                        proof {
                            assert(syllables.deep_view() =~= pop_tok(mid));
                        }
                    }
                    prev_geminate = false;
                    let ghost before_toks = syllables.deep_view();
                    let ghost pending = temp_syllable@;
                    syllables.push(temp_syllable);
                    temp_syllable = String::new();
                    proof {
                        assert(syllables.deep_view() =~= before_toks.push(pending));
                    }
                }
                let ghost st7 = stage_vowel(st6, c);
                proof {
                    assert(SegState {
                        toks: syllables.deep_view(),
                        syl: temp_syllable@,
                        dig: temp_digraph@,
                        nasal: prev_nasal,
                        gem: prev_geminate,
                    } == st7);
                }

                // The digraph window keeps the last two characters.
                if temp_digraph.as_str().unicode_len() >= 2 {
                    temp_digraph = String::new();
                    push_char(&mut temp_digraph, c);
                    proof {
                        assert(temp_digraph@ =~= seq![c]);
                    }
                }
                proof {
                    assert(SegState {
                        toks: syllables.deep_view(),
                        syl: temp_syllable@,
                        dig: temp_digraph@,
                        nasal: prev_nasal,
                        gem: prev_geminate,
                    } == stage_window(st7, c));
                    assert(seg_step(pre, c) == stage_window(st7, c));
                }
            }

            proof {
                assert(SegState {
                    toks: syllables.deep_view(),
                    syl: temp_syllable@,
                    dig: temp_digraph@,
                    nasal: prev_nasal,
                    gem: prev_geminate,
                } == seg_step(pre, c));
            }
            i = i + 1;
        }
        proof {
            assert(low.skip(n as int) =~= Seq::<char>::empty());
        }
    }
    syllables
}


/// Appending to the output; popping from an empty output changes
/// nothing.
pub open spec fn pop_last(s: Seq<char>) -> Seq<char> {
    if s.len() == 0 {
        s
    } else {
        s.drop_last()
    }
}

/// The last character of a token, or a blank for an empty token.
pub open spec fn last_char_of(t: Seq<char>) -> char {
    if t.len() > 0 {
        t.last()
    } else {
        ' '
    }
}

/// Rendering a token sequence with a kana table: a token led by a
/// non-letter passes through verbatim, any other token must be in the
/// table, and a single miss fails the whole call.
pub open spec fn render_from(
    toks: Seq<Seq<char>>,
    pairs: Seq<(Seq<char>, Seq<char>)>,
    acc: Seq<char>,
) -> Option<Seq<char>>
    decreases toks.len(),
{
    if toks.len() == 0 {
        Some(acc)
    } else {
        let t = toks[0];
        if t.len() > 0 && !is_letter(t[0]) {
            render_from(toks.drop_first(), pairs, acc + t)
        } else {
            match assoc_get(pairs, t) {
                Some(k) => render_from(toks.drop_first(), pairs, acc + k),
                None => None,
            }
        }
    }
}

/// Rendering for katakana: as for hiragana, except that a vowel token
/// equal to the previous token's final letter is looked up as the
/// long-vowel token instead.
pub open spec fn render_kata_from(
    toks: Seq<Seq<char>>,
    pairs: Seq<(Seq<char>, Seq<char>)>,
    acc: Seq<char>,
    last_v: char,
) -> Option<Seq<char>>
    decreases toks.len(),
{
    if toks.len() == 0 {
        Some(acc)
    } else {
        let t = toks[0];
        let key = if t == seq![last_v] && is_letter(last_v) {
            "L"@
        } else {
            t
        };
        if t.len() > 0 && !is_letter(t[0]) {
            render_kata_from(toks.drop_first(), pairs, acc + t, last_char_of(t))
        } else {
            match assoc_get(pairs, key) {
                Some(k) => render_kata_from(toks.drop_first(), pairs, acc + k, last_char_of(t)),
                None => None,
            }
        }
    }
}

/// Returns the hiragana rendering of the input, or an error when some
/// syllable has no kana.
pub fn to_hiragana(input: &str, is_eng: bool) -> (r: Result<String, String>)
    ensures
        match r {
            Ok(o) => render_from(spec_segment(input@, is_eng), hiragana_pairs(), Seq::empty())
                == Some(o@),
            Err(e) => (render_from(spec_segment(input@, is_eng), hiragana_pairs(), Seq::empty())
                is None) && e@ == "Unable to parse input"@,
        },
{
    let syllables = to_japanese_syllables(input, is_eng);
    let table = initialize_hiragana();
    let ghost toks = syllables.deep_view();
    let ghost pairs = hiragana_pairs();
    let mut output = String::new();
    proof {
        assert(toks.skip(0) =~= toks);
        assert(output@ =~= Seq::<char>::empty());
    }
    let mut i: usize = 0;
    while i < syllables.len()
        invariant
            i <= syllables@.len(),
            toks == syllables.deep_view(),
            toks == spec_segment(input@, is_eng),
            toks.len() == syllables@.len(),
            table@ == pairs,
            pairs == hiragana_pairs(),
            render_from(toks, pairs, Seq::empty()) == render_from(
                toks.skip(i as int),
                pairs,
                output@,
            ),
        decreases syllables@.len() - i,
    {
        let ghost cur = toks.skip(i as int);
        proof {
            assert(cur[0] == toks[i as int]);
            assert(cur.drop_first() =~= toks.skip(i as int + 1));
            assert(syllables@[i as int]@ == toks[i as int]);
        }
        let t_str = syllables[i].as_str();
        let tlen = t_str.unicode_len();
        if tlen > 0 && !letter(t_str.get_char(0)) {
            output.append(t_str);
        } else {
            match table.get(t_str) {
                Some(kana) => {
                    let kana_str = kana.as_str();
                    output.append(kana_str);
                },
                None => {
                    proof {
                        assert(render_from(cur, pairs, output@) is None);
                        assert(render_from(toks, pairs, Seq::empty()) is None);
                        assert(toks == spec_segment(input@, is_eng));
                        assert(render_from(
                            spec_segment(input@, is_eng),
                            hiragana_pairs(),
                            Seq::empty(),
                        ) is None);
                    }
                    let e = String::from_str("Unable to parse input");
                    proof {
                        assert(e@ == "Unable to parse input"@);
                    }
                    return Err(e);
                },
            }
        }
        i = i + 1;
    }
    proof {
        assert(toks.skip(toks.len() as int) =~= Seq::<Seq<char>>::empty());
    }
    Ok(output)
}

/// Returns the katakana rendering of the input, contracting a
/// repeated vowel to the long-vowel mark, or an error when some
/// syllable has no kana.
pub fn to_katakana(input: &str, is_eng: bool) -> (r: Result<String, String>)
    ensures
        match r {
            Ok(o) => render_kata_from(
                spec_segment(input@, is_eng),
                katakana_pairs(),
                Seq::empty(),
                ' ',
            ) == Some(o@),
            Err(e) => (render_kata_from(
                spec_segment(input@, is_eng),
                katakana_pairs(),
                Seq::empty(),
                ' ',
            ) is None) && e@ == "Unable to parse input"@,
        },
{
    let syllables = to_japanese_syllables(input, is_eng);
    let table = initialize_katakana();
    let ghost toks = syllables.deep_view();
    let ghost pairs = katakana_pairs();
    let mut output = String::new();
    let mut last_vowel: char = ' ';
    proof {
        assert(toks.skip(0) =~= toks);
        assert(output@ =~= Seq::<char>::empty());
    }
    let mut i: usize = 0;
    while i < syllables.len()
        invariant
            i <= syllables@.len(),
            toks == syllables.deep_view(),
            toks == spec_segment(input@, is_eng),
            toks.len() == syllables@.len(),
            table@ == pairs,
            pairs == katakana_pairs(),
            render_kata_from(toks, pairs, Seq::empty(), ' ') == render_kata_from(
                toks.skip(i as int),
                pairs,
                output@,
                last_vowel,
            ),
        decreases syllables@.len() - i,
    {
        let ghost cur = toks.skip(i as int);
        proof {
            assert(cur[0] == toks[i as int]);
            assert(cur.drop_first() =~= toks.skip(i as int + 1));
            assert(syllables@[i as int]@ == toks[i as int]);
        }
        let t_str = syllables[i].as_str();
        let tlen = t_str.unicode_len();
        let long = tlen == 1 && t_str.get_char(0) == last_vowel && letter(last_vowel);
        proof {
            if long {
                assert(toks[i as int] =~= seq![last_vowel]);
            } else {
                assert(!(toks[i as int] == seq![last_vowel] && is_letter(last_vowel)));
            }
        }
        if tlen > 0 && !letter(t_str.get_char(0)) {
            output.append(t_str);
        } else {
            let found = if long {
                table.get("L")
            } else {
                table.get(t_str)
            };
            match found {
                Some(kana) => {
                    let kana_str = kana.as_str();
                    output.append(kana_str);
                },
                None => {
                    proof {
                        assert(render_kata_from(cur, pairs, output@, last_vowel) is None);
                        assert(render_kata_from(toks, pairs, Seq::empty(), ' ') is None);
                        assert(toks == spec_segment(input@, is_eng));
                        assert(render_kata_from(
                            spec_segment(input@, is_eng),
                            katakana_pairs(),
                            Seq::empty(),
                            ' ',
                        ) is None);
                    }
                    let e = String::from_str("Unable to parse input");
                    proof {
                        assert(e@ == "Unable to parse input"@);
                    }
                    return Err(e);
                },
            }
        }
        last_vowel = if tlen > 0 {
            t_str.get_char(tlen - 1)
        } else {
            ' '
        };
        proof {
            assert(last_vowel == last_char_of(toks[i as int]));
        }
        i = i + 1;
    }
    proof {
        assert(toks.skip(toks.len() as int) =~= Seq::<Seq<char>>::empty());
    }
    Ok(output)
}


/// The hiragana small glide vowels and their Latin counterparts, as
/// one alternating list: each entry answers with the entry after it.
/// The Latin vowels are in the list too, so a Latin a, u or o in the
/// input is answered with a small kana, and an e with nothing.
pub open spec fn is_glide_h(c: char) -> bool {
    c == '\u{3083}' || c == 'a' || c == '\u{3085}' || c == 'u' || c == '\u{3087}' || c == 'o'
        || c == '\u{3047}' || c == 'e'
}

pub open spec fn glide_out_h(c: char) -> Option<char> {
    if c == '\u{3083}' {
        Some('a')
    } else if c == 'a' {
        Some('\u{3085}')
    } else if c == '\u{3085}' {
        Some('u')
    } else if c == 'u' {
        Some('\u{3087}')
    } else if c == '\u{3087}' {
        Some('o')
    } else if c == 'o' {
        Some('\u{3047}')
    } else if c == '\u{3047}' {
        Some('e')
    } else {
        None
    }
}

/// The hiragana whose syllables already carry the glide, so no y is
/// inserted after them.
pub open spec fn is_sibilant_h(c: char) -> bool {
    c == '\u{3057}' || c == '\u{3058}' || c == '\u{3061}'
}

/// Romanization of a hiragana string, character by character: a
/// non-letter passes through, a small glide vowel rewrites the vowel
/// just produced, and any other kana is looked up, doubling the
/// consonant after the small tsu.  The `last` parameter is the kana
/// that the lookup branch saw most recently.
pub open spec fn romaji_h_from(
    s: Seq<char>,
    pairs: Seq<(Seq<char>, Seq<char>)>,
    acc: Seq<char>,
    last: char,
) -> Option<Seq<char>>
    decreases s.len(),
{
    if s.len() == 0 {
        Some(acc)
    } else {
        let c = s[0];
        if !is_letter(c) {
            romaji_h_from(s.drop_first(), pairs, acc.push(c), last)
        } else if is_glide_h(c) {
            match glide_out_h(c) {
                Some(v) => {
                    let base = pop_last(acc);
                    let out = if !is_sibilant_h(last) {
                        base.push('y').push(v)
                    } else {
                        base.push(v)
                    };
                    romaji_h_from(s.drop_first(), pairs, out, last)
                },
                None => None,
            }
        } else {
            match assoc_get(pairs, seq![c]) {
                Some(t) => {
                    let out = if last == '\u{3063}' {
                        let first = if t.len() > 0 {
                            t[0]
                        } else {
                            ' '
                        };
                        pop_last(acc).push(first) + t
                    } else {
                        acc + t
                    };
                    romaji_h_from(s.drop_first(), pairs, out, c)
                },
                None => None,
            }
        }
    }
}

/// The katakana counterparts of the glide list.
pub open spec fn is_glide_k(c: char) -> bool {
    c == '\u{30e3}' || c == 'a' || c == '\u{30e5}' || c == 'u' || c == '\u{30e7}' || c == 'o'
        || c == '\u{30a7}' || c == 'e'
}

pub open spec fn glide_out_k(c: char) -> Option<char> {
    if c == '\u{30e3}' {
        Some('a')
    } else if c == 'a' {
        Some('\u{30e5}')
    } else if c == '\u{30e5}' {
        Some('u')
    } else if c == 'u' {
        Some('\u{30e7}')
    } else if c == '\u{30e7}' {
        Some('o')
    } else if c == 'o' {
        Some('\u{30a7}')
    } else if c == '\u{30a7}' {
        Some('e')
    } else {
        None
    }
}

pub open spec fn is_sibilant_k(c: char) -> bool {
    c == '\u{30b7}' || c == '\u{30b8}' || c == '\u{30c1}'
}

/// Romanization of a katakana string: as for hiragana, with one more
/// rule ahead of the lookup: the long-vowel mark doubles the letter
/// just produced.
pub open spec fn romaji_k_from(
    s: Seq<char>,
    pairs: Seq<(Seq<char>, Seq<char>)>,
    acc: Seq<char>,
    last: char,
) -> Option<Seq<char>>
    decreases s.len(),
{
    if s.len() == 0 {
        Some(acc)
    } else {
        let c = s[0];
        if !is_letter(c) {
            romaji_k_from(s.drop_first(), pairs, acc.push(c), last)
        } else if is_glide_k(c) {
            match glide_out_k(c) {
                Some(v) => {
                    let base = pop_last(acc);
                    let out = if !is_sibilant_k(last) {
                        base.push('y').push(v)
                    } else {
                        base.push(v)
                    };
                    romaji_k_from(s.drop_first(), pairs, out, last)
                },
                None => None,
            }
        } else if c == '\u{30fc}' {
            if acc.len() == 0 {
                None
            } else {
                romaji_k_from(s.drop_first(), pairs, acc.push(acc.last()), last)
            }
        } else {
            match assoc_get(pairs, seq![c]) {
                Some(t) => {
                    let out = if last == '\u{30c3}' {
                        let first = if t.len() > 0 {
                            t[0]
                        } else {
                            ' '
                        };
                        pop_last(acc).push(first) + t
                    } else {
                        acc + t
                    };
                    romaji_k_from(s.drop_first(), pairs, out, c)
                },
                None => None,
            }
        }
    }
}

/// Returns the romanization of a hiragana string, or an error when
/// some kana has no syllable.
pub fn to_roomaji_hiragana(input: &str) -> (r: Result<String, String>)
    ensures
        match r {
            Ok(o) => romaji_h_from(input@, roomaji_pairs(hiragana_keys_spec()), Seq::empty(), ' ')
                == Some(o@),
            Err(e) => (romaji_h_from(input@, roomaji_pairs(hiragana_keys_spec()), Seq::empty(), ' ')
                is None) && e@ == "Unable to parse input"@,
        },
{
    let keys = initialize_hiragana_keys();
    proof {
        lemma_syllabary_len();
        assert(keys@.len() == keys.deep_view().len());
    }
    let table = initilize_roomaji(&keys);
    let ghost pairs = roomaji_pairs(hiragana_keys_spec());
    let ghost target = romaji_h_from(input@, pairs, Seq::empty(), ' ');

    let n = input.unicode_len();
    let mut output = String::new();
    let mut last_char: char = ' ';
    proof {
        assert(input@.skip(0) =~= input@);
        assert(output@ =~= Seq::<char>::empty());
    }
    let mut i: usize = 0;
    while i < n
        invariant
            i <= n,
            n == input@.len(),
            table@ == pairs,
            pairs == roomaji_pairs(hiragana_keys_spec()),
            target == romaji_h_from(input@, pairs, Seq::empty(), ' '),
            target == romaji_h_from(input@.skip(i as int), pairs, output@, last_char),
        decreases n - i,
    {
        let ghost cur = input@.skip(i as int);
        let c = input.get_char(i);
        proof {
            assert(cur[0] == c);
            assert(cur.drop_first() =~= input@.skip(i as int + 1));
        }
        if !letter(c) {
            push_char(&mut output, c);
        } else if c == '\u{3083}' || c == 'a' || c == '\u{3085}' || c == 'u' || c == '\u{3087}'
            || c == 'o' || c == '\u{3047}' || c == 'e' {
            if c == 'e' {
                // The glide list has no entry after its last slot, so
                // this character cannot be rewritten.
                proof {
                    assert(romaji_h_from(cur, pairs, output@, last_char) is None);
                }
                let e = String::from_str("Unable to parse input");
                return Err(e);
            }
            let glide: char = if c == '\u{3083}' {
                'a'
            } else if c == 'a' {
                '\u{3085}'
            } else if c == '\u{3085}' {
                'u'
            } else if c == 'u' {
                '\u{3087}'
            } else if c == '\u{3087}' {
                'o'
            } else if c == 'o' {
                '\u{3047}'
            } else {
                'e'
            };
            proof {
                assert(glide_out_h(c) == Some(glide));
            }
            let _ = pop_char(&mut output);
            if !(last_char == '\u{3057}' || last_char == '\u{3058}' || last_char == '\u{3061}') {
                push_char(&mut output, 'y');
            }
            push_char(&mut output, glide);
        } else {
            let mut key = String::new();
            push_char(&mut key, c);
            proof {
                assert(key@ =~= seq![c]);
            }
            match table.get(key.as_str()) {
                Some(token) => {
                    let token_str = token.as_str();
                    let tlen = token_str.unicode_len();
                    if last_char == '\u{3063}' {
                        let _ = pop_char(&mut output);
                        let first = if tlen > 0 {
                            token_str.get_char(0)
                        } else {
                            ' '
                        };
                        push_char(&mut output, first);
                    }
                    output.append(token_str);
                    last_char = c;
                },
                None => {
                    proof {
                        assert(romaji_h_from(cur, pairs, output@, last_char) is None);
                    }
                    let e = String::from_str("Unable to parse input");
                    return Err(e);
                },
            }
        }
        i = i + 1;
    }
    proof {
        assert(input@.skip(n as int) =~= Seq::<char>::empty());
    }
    Ok(output)
}

/// Returns the romanization of a katakana string, or an error when
/// some kana has no syllable.
pub fn to_roomaji_katakana(input: &str) -> (r: Result<String, String>)
    ensures
        match r {
            Ok(o) => romaji_k_from(input@, roomaji_pairs(katakana_keys_spec()), Seq::empty(), ' ')
                == Some(o@),
            Err(e) => (romaji_k_from(input@, roomaji_pairs(katakana_keys_spec()), Seq::empty(), ' ')
                is None) && e@ == "Unable to parse input"@,
        },
{
    let keys = initialize_katakana_keys();
    proof {
        lemma_syllabary_len();
        assert(keys@.len() == keys.deep_view().len());
    }
    let table = initilize_roomaji(&keys);
    let ghost pairs = roomaji_pairs(katakana_keys_spec());
    let ghost target = romaji_k_from(input@, pairs, Seq::empty(), ' ');

    let n = input.unicode_len();
    let mut output = String::new();
    let mut last_char: char = ' ';
    proof {
        assert(input@.skip(0) =~= input@);
        assert(output@ =~= Seq::<char>::empty());
    }
    let mut i: usize = 0;
    while i < n
        invariant
            i <= n,
            n == input@.len(),
            table@ == pairs,
            pairs == roomaji_pairs(katakana_keys_spec()),
            target == romaji_k_from(input@, pairs, Seq::empty(), ' '),
            target == romaji_k_from(input@.skip(i as int), pairs, output@, last_char),
        decreases n - i,
    {
        let ghost cur = input@.skip(i as int);
        let c = input.get_char(i);
        proof {
            assert(cur[0] == c);
            assert(cur.drop_first() =~= input@.skip(i as int + 1));
        }
        if !letter(c) {
            push_char(&mut output, c);
        } else if c == '\u{30e3}' || c == 'a' || c == '\u{30e5}' || c == 'u' || c == '\u{30e7}'
            || c == 'o' || c == '\u{30a7}' || c == 'e' {
            if c == 'e' {
                // The glide list has no entry after its last slot, so
                // this character cannot be rewritten.
                proof {
                    assert(romaji_k_from(cur, pairs, output@, last_char) is None);
                }
                let e = String::from_str("Unable to parse input");
                return Err(e);
            }
            let glide: char = if c == '\u{30e3}' {
                'a'
            } else if c == 'a' {
                '\u{30e5}'
            } else if c == '\u{30e5}' {
                'u'
            } else if c == 'u' {
                '\u{30e7}'
            } else if c == '\u{30e7}' {
                'o'
            } else if c == 'o' {
                '\u{30a7}'
            } else {
                'e'
            };
            proof {
                assert(glide_out_k(c) == Some(glide));
            }
            let _ = pop_char(&mut output);
            if !(last_char == '\u{30b7}' || last_char == '\u{30b8}' || last_char == '\u{30c1}') {
                push_char(&mut output, 'y');
            }
            push_char(&mut output, glide);
        } else if c == '\u{30fc}' {
            // The long-vowel mark doubles the letter just produced; at
            // the very start there is nothing to double.
            let olen = output.as_str().unicode_len();
            if olen == 0 {
                proof {
                    assert(romaji_k_from(cur, pairs, output@, last_char) is None);
                }
                let e = String::from_str("Unable to parse input");
                return Err(e);
            }
            let repeat = output.as_str().get_char(olen - 1);
            push_char(&mut output, repeat);
        } else {
            let mut key = String::new();
            push_char(&mut key, c);
            proof {
                assert(key@ =~= seq![c]);
            }
            match table.get(key.as_str()) {
                Some(token) => {
                    let token_str = token.as_str();
                    let tlen = token_str.unicode_len();
                    if last_char == '\u{30c3}' {
                        let _ = pop_char(&mut output);
                        let first = if tlen > 0 {
                            token_str.get_char(0)
                        } else {
                            ' '
                        };
                        push_char(&mut output, first);
                    }
                    output.append(token_str);
                    last_char = c;
                },
                None => {
                    proof {
                        assert(romaji_k_from(cur, pairs, output@, last_char) is None);
                    }
                    let e = String::from_str("Unable to parse input");
                    return Err(e);
                },
            }
        }
        i = i + 1;
    }
    proof {
        assert(input@.skip(n as int) =~= Seq::<char>::empty());
    }
    Ok(output)
}

} // verus!
