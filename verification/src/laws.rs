//! The properties that hold of the transliterator, stated and proved
//! over the same specification functions that the executable
//! functions are verified against.

use vstd::prelude::*;
use crate::chars::is_vowel;
use crate::chars::is_geminate;
use crate::chars::is_letter;
use crate::chars::lower_seq;
use crate::chars::lemma_lower_seq_idempotent;
use crate::trans::SegState;
use crate::trans::seg_init;
use crate::trans::seg_step;
use crate::trans::seg_run;
use crate::trans::spec_segment;
use crate::trans::render_from;
use crate::trans::render_kata_from;
use crate::trans::is_seg_digraph;
use crate::trans::seg_digraphs;
use crate::conv::hiragana_pairs;
use crate::conv::katakana_pairs;
use crate::conv::roomaji_pairs;
use crate::conv::hiragana_keys_spec;
use crate::conv::katakana_keys_spec;
use crate::conv::hiragana_fallbacks;
use crate::conv::katakana_fallbacks;
use crate::conv::katakana_syllabary;
use crate::conv::syllabary_spec;
use crate::conv::vowels_order;
use crate::conv::zip_pairs;
use crate::conv::lemma_syllabary_len;
use crate::conv::lemma_syllabary_no_long_token;
use crate::conv::lemma_syllabary_vowel_tokens;
use crate::table::assoc_get;
use crate::table::assoc_remove;
use crate::table::assoc_put_all;
use crate::table::lemma_assoc_get_found;
use crate::table::lemma_assoc_get_put_all;
use crate::table::lemma_assoc_get_remove_other;
use crate::table::lemma_pairs_last_get_absent;
use crate::trans::romaji_h_from;
use crate::trans::is_glide_h;
use crate::cmu::concat_tokens;
use crate::facts::plain_syllables;

verus! {

/// Segmentation is case-insensitive: folding the input first changes
/// nothing, because the segmenter folds it anyway.
pub proof fn lemma_segment_case_insensitive(x: Seq<char>, is_eng: bool)
    ensures
        spec_segment(lower_seq(x), is_eng) == spec_segment(x, is_eng),
{
    lemma_lower_seq_idempotent(x);
}

/// Case insensitivity of the hiragana conversion: a folded input
/// gives the same kana as the original input, in either mode.
pub proof fn lemma_case_insensitive_hiragana(x: Seq<char>, is_eng: bool)
    ensures
        render_from(spec_segment(lower_seq(x), is_eng), hiragana_pairs(), Seq::empty())
            == render_from(spec_segment(x, is_eng), hiragana_pairs(), Seq::empty()),
{
    lemma_segment_case_insensitive(x, is_eng);
}

/// Case insensitivity of the katakana conversion.
pub proof fn lemma_case_insensitive_katakana(x: Seq<char>, is_eng: bool)
    ensures
        render_kata_from(spec_segment(lower_seq(x), is_eng), katakana_pairs(), Seq::empty(), ' ')
            == render_kata_from(spec_segment(x, is_eng), katakana_pairs(), Seq::empty(), ' '),
{
    lemma_segment_case_insensitive(x, is_eng);
}

/// A doubled geminate consonant followed by a vowel segments into the
/// gemination marker and one consonant-vowel token.
pub proof fn lemma_gemination(c: char, v: char)
    requires
        is_geminate(c),
        is_vowel(v),
    ensures
        spec_segment(seq![c, c, v], false) == seq!["G"@, seq![c, v]],
{
    reveal_strlit("ky");
    reveal_strlit("sh");
    reveal_strlit("ch");
    reveal_strlit("nq");
    reveal_strlit("hy");
    reveal_strlit("my");
    reveal_strlit("ry");
    reveal_strlit("gy");
    reveal_strlit("by");
    reveal_strlit("py");

    let s = seq![c, c, v];
    assert(lower_seq(s) =~= s);

    let st0 = seg_init();
    assert(!is_seg_digraph(seq![c])) by {
        assert(forall|i: int| 0 <= i < seg_digraphs().len() ==> seg_digraphs()[i].len() == 2);
    }
    let st1 = seg_step(st0, c);
    assert(st1 == SegState {
        toks: seq![seq![c]],
        syl: seq![c],
        dig: seq![c],
        nasal: false,
        gem: true,
    });

    assert(!is_seg_digraph(seq![c, c])) by {
        assert(forall|i: int| 0 <= i < seg_digraphs().len() ==> seg_digraphs()[i][0]
            != seg_digraphs()[i][1]);
    }
    let sa = crate::trans::stage_start(st1, c);
    assert(sa.toks == st1.toks && sa.syl =~= seq![c, c] && sa.dig =~= seq![c, c] && sa.gem);
    let sb = crate::trans::stage_nonletter(sa, c);
    assert(sb == sa);
    let sc2 = crate::trans::stage_digraph(sb);
    assert(sc2 == sb);
    let sd = crate::trans::stage_nasal(sc2, c);
    assert(sd == sc2);
    assert(sd.toks.last() == seq![c]);
    assert(crate::trans::collapse_hit(sd, c));
    let se = crate::trans::stage_collapse(sd, c);
    assert(se.toks =~= seq!["G"@]);
    let st2 = seg_step(st1, c);
    assert(st2 == se);
    assert(st2.toks =~= seq!["G"@]);
    assert(st2.syl =~= seq![c]);
    assert(st2.dig =~= seq![c, c]);
    assert(!st2.nasal && !st2.gem);

    assert(!is_seg_digraph(seq![c, c, v])) by {
        assert(forall|i: int| 0 <= i < seg_digraphs().len() ==> seg_digraphs()[i].len() == 2);
    }
    let ta = crate::trans::stage_start(st2, v);
    assert(ta.syl =~= seq![c, v] && ta.dig =~= seq![c, c, v] && !ta.gem && !ta.nasal);
    assert(ta.toks == st2.toks);
    let tb = crate::trans::stage_nonletter(ta, v);
    assert(tb == ta);
    let tc2 = crate::trans::stage_digraph(tb);
    assert(tc2 == tb);
    let td = crate::trans::stage_nasal(tc2, v);
    assert(td == tc2);
    assert(!crate::trans::collapse_hit(td, v));
    let te = crate::trans::stage_discard(td, v);
    assert(te == td);
    let tf = crate::trans::stage_gem_flag(te, v);
    assert(tf == te);
    let tg = crate::trans::stage_vowel(tf, v);
    assert(tg.toks =~= seq!["G"@, seq![c, v]]);
    let th = crate::trans::stage_window(tg, v);
    assert(th.toks == tg.toks);
    let st3 = seg_step(st2, v);
    assert(st3 == th);
    assert(st3.toks =~= seq!["G"@, seq![c, v]]);

    assert(seg_run(st0, s) == seg_run(st1, s.drop_first()));
    assert(s.drop_first() =~= seq![c, v]);
    assert(seg_run(st1, seq![c, v]) == seg_run(st2, seq![c, v].drop_first()));
    assert(seq![c, v].drop_first() =~= seq![v]);
    assert(seg_run(st2, seq![v]) == seg_run(st3, seq![v].drop_first()));
    assert(seq![v].drop_first() =~= Seq::<char>::empty());
    assert(seg_run(st3, Seq::empty()) == st3);
    assert(spec_segment(s, false) == st3.toks);
}


/// The kana for a bare vowel, per script.
pub open spec fn vowel_kana_h(v: char) -> char {
    if v == 'a' {
        '\u{3042}'
    } else if v == 'i' {
        '\u{3044}'
    } else if v == 'u' {
        '\u{3046}'
    } else if v == 'e' {
        '\u{3048}'
    } else {
        '\u{304a}'
    }
}

pub open spec fn vowel_kana_k(v: char) -> char {
    if v == 'a' {
        '\u{30a2}'
    } else if v == 'i' {
        '\u{30a4}'
    } else if v == 'u' {
        '\u{30a6}'
    } else if v == 'e' {
        '\u{30a8}'
    } else {
        '\u{30aa}'
    }
}

/// The index of a vowel in the syllabary.
pub open spec fn vowel_index(v: char) -> int {
    if v == 'a' {
        0
    } else if v == 'i' {
        1
    } else if v == 'u' {
        2
    } else if v == 'e' {
        3
    } else {
        4
    }
}

/// The hiragana table binds each bare vowel to its kana.
pub proof fn lemma_hiragana_vowel_entry(v: char)
    requires
        is_vowel(v),
    ensures
        assoc_get(hiragana_pairs(), seq![v]) == Some(seq![vowel_kana_h(v)]),
{
    reveal_strlit("yi");
    reveal_strlit("ye");
    reveal_strlit("wu");
    reveal_strlit("b");
    reveal_strlit("ch");
    reveal_strlit("d");
    reveal_strlit("z");
    reveal_strlit("f");
    reveal_strlit("g");
    reveal_strlit("h");
    reveal_strlit("j");
    reveal_strlit("k");
    reveal_strlit("r");
    reveal_strlit("p");
    reveal_strlit("s");
    reveal_strlit("sh");
    reveal_strlit("t");
    reveal_strlit("si");
    reveal_strlit("ti");
    reveal_strlit("tu");
    reveal_strlit("hu");
    reveal_strlit("zi");
    reveal_strlit("m");
    reveal_strlit("L");
    reveal_strlit("\u{3042}");
    reveal_strlit("\u{3044}");
    reveal_strlit("\u{3046}");
    reveal_strlit("\u{3048}");
    reveal_strlit("\u{304a}");
    lemma_syllabary_len();
    lemma_syllabary_vowel_tokens();
    assert("b"@ =~= seq!['b']);
    assert("ch"@ =~= seq!['c', 'h']);
    assert("d"@ =~= seq!['d']);
    assert("z"@ =~= seq!['z']);
    assert("f"@ =~= seq!['f']);
    assert("g"@ =~= seq!['g']);
    assert("h"@ =~= seq!['h']);
    assert("j"@ =~= seq!['j']);
    assert("k"@ =~= seq!['k']);
    assert("r"@ =~= seq!['r']);
    assert("p"@ =~= seq!['p']);
    assert("s"@ =~= seq!['s']);
    assert("sh"@ =~= seq!['s', 'h']);
    assert("t"@ =~= seq!['t']);
    assert("si"@ =~= seq!['s', 'i']);
    assert("ti"@ =~= seq!['t', 'i']);
    assert("tu"@ =~= seq!['t', 'u']);
    assert("hu"@ =~= seq!['h', 'u']);
    assert("zi"@ =~= seq!['z', 'i']);
    assert("m"@ =~= seq!['m']);
    assert("yi"@ =~= seq!['y', 'i']);
    assert("ye"@ =~= seq!['y', 'e']);
    assert("wu"@ =~= seq!['w', 'u']);
    assert("L"@ =~= seq!['L']);

    let q = seq![v];
    assert(q.len() == 1 && q[0] == v);
    let zipped = zip_pairs(syllabary_spec(), hiragana_keys_spec());
    let trimmed = assoc_remove(assoc_remove(assoc_remove(zipped, "yi"@), "ye"@), "wu"@);
    assert(hiragana_pairs() == assoc_put_all(trimmed, hiragana_fallbacks()));

    assert forall|i: int| 0 <= i < hiragana_fallbacks().len() implies (#[trigger] hiragana_fallbacks()[i]).0
        != q by {
        if i == 0 {
            assert(hiragana_fallbacks()[0].0 == "b"@);
            assert("b"@[0] == 'b');
            assert("b"@.len() == 1);
            assert("b"@ != q);
        } else if i == 1 {
            assert(hiragana_fallbacks()[1].0 == "ch"@);
            assert("ch"@.len() == 2);
            assert("ch"@ != q);
        } else if i == 2 {
            assert(hiragana_fallbacks()[2].0 == "d"@);
            assert("d"@[0] == 'd');
            assert("d"@.len() == 1);
            assert("d"@ != q);
        } else if i == 3 {
            assert(hiragana_fallbacks()[3].0 == "z"@);
            assert("z"@[0] == 'z');
            assert("z"@.len() == 1);
            assert("z"@ != q);
        } else if i == 4 {
            assert(hiragana_fallbacks()[4].0 == "f"@);
            assert("f"@[0] == 'f');
            assert("f"@.len() == 1);
            assert("f"@ != q);
        } else if i == 5 {
            assert(hiragana_fallbacks()[5].0 == "g"@);
            assert("g"@[0] == 'g');
            assert("g"@.len() == 1);
            assert("g"@ != q);
        } else if i == 6 {
            assert(hiragana_fallbacks()[6].0 == "h"@);
            assert("h"@[0] == 'h');
            assert("h"@.len() == 1);
            assert("h"@ != q);
        } else if i == 7 {
            assert(hiragana_fallbacks()[7].0 == "j"@);
            assert("j"@[0] == 'j');
            assert("j"@.len() == 1);
            assert("j"@ != q);
        } else if i == 8 {
            assert(hiragana_fallbacks()[8].0 == "k"@);
            assert("k"@[0] == 'k');
            assert("k"@.len() == 1);
            assert("k"@ != q);
        } else if i == 9 {
            assert(hiragana_fallbacks()[9].0 == "r"@);
            assert("r"@[0] == 'r');
            assert("r"@.len() == 1);
            assert("r"@ != q);
        } else if i == 10 {
            assert(hiragana_fallbacks()[10].0 == "p"@);
            assert("p"@[0] == 'p');
            assert("p"@.len() == 1);
            assert("p"@ != q);
        } else if i == 11 {
            assert(hiragana_fallbacks()[11].0 == "s"@);
            assert("s"@[0] == 's');
            assert("s"@.len() == 1);
            assert("s"@ != q);
        } else if i == 12 {
            assert(hiragana_fallbacks()[12].0 == "sh"@);
            assert("sh"@.len() == 2);
            assert("sh"@ != q);
        } else if i == 13 {
            assert(hiragana_fallbacks()[13].0 == "t"@);
            assert("t"@[0] == 't');
            assert("t"@.len() == 1);
            assert("t"@ != q);
        } else if i == 14 {
            assert(hiragana_fallbacks()[14].0 == "si"@);
            assert("si"@.len() == 2);
            assert("si"@ != q);
        } else if i == 15 {
            assert(hiragana_fallbacks()[15].0 == "ti"@);
            assert("ti"@.len() == 2);
            assert("ti"@ != q);
        } else if i == 16 {
            assert(hiragana_fallbacks()[16].0 == "tu"@);
            assert("tu"@.len() == 2);
            assert("tu"@ != q);
        } else if i == 17 {
            assert(hiragana_fallbacks()[17].0 == "hu"@);
            assert("hu"@.len() == 2);
            assert("hu"@ != q);
        } else if i == 18 {
            assert(hiragana_fallbacks()[18].0 == "zi"@);
            assert("zi"@.len() == 2);
            assert("zi"@ != q);
        } else if i == 19 {
            assert(hiragana_fallbacks()[19].0 == "m"@);
            assert("m"@[0] == 'm');
            assert("m"@.len() == 1);
            assert("m"@ != q);
        } else {
        }
    }
    lemma_pairs_last_get_absent(hiragana_fallbacks(), q);
    lemma_assoc_get_put_all(trimmed, hiragana_fallbacks(), q);

    assert(q != "yi"@ && q != "ye"@ && q != "wu"@);
    lemma_assoc_get_remove_other(assoc_remove(assoc_remove(zipped, "yi"@), "ye"@), "wu"@, q);
    lemma_assoc_get_remove_other(assoc_remove(zipped, "yi"@), "ye"@, q);
    lemma_assoc_get_remove_other(zipped, "yi"@, q);

    let iv = vowel_index(v);
    assert(zipped[iv].0 == syllabary_spec()[iv]);
    assert(syllabary_spec()[iv] == q);
    assert forall|j: int| 0 <= j < iv implies (#[trigger] zipped[j]).0 != q by {
        assert(zipped[j].0 == syllabary_spec()[j]);
        assert(syllabary_spec()[j] == seq![vowels_order()[j]]);
        if j == 0 {
            assert(vowels_order()[0] == 'a' && v != 'a');
        } else if j == 1 {
            assert(vowels_order()[1] == 'i' && v != 'i');
        } else if j == 2 {
            assert(vowels_order()[2] == 'u' && v != 'u');
        } else if j == 3 {
            assert(vowels_order()[3] == 'e' && v != 'e');
        } else {
        }
        assert(seq![vowels_order()[j]] != seq![v]);
    }
    lemma_assoc_get_found(zipped, q, iv);
    assert(zipped[iv].1 == hiragana_keys_spec()[iv]);
    assert(hiragana_keys_spec()[iv] =~= seq![vowel_kana_h(v)]);
}

/// The katakana table binds each bare vowel to its kana.
pub proof fn lemma_katakana_vowel_entry(v: char)
    requires
        is_vowel(v),
    ensures
        assoc_get(katakana_pairs(), seq![v]) == Some(seq![vowel_kana_k(v)]),
{
    reveal_strlit("yi");
    reveal_strlit("ye");
    reveal_strlit("wu");
    reveal_strlit("b");
    reveal_strlit("ch");
    reveal_strlit("d");
    reveal_strlit("z");
    reveal_strlit("f");
    reveal_strlit("g");
    reveal_strlit("h");
    reveal_strlit("j");
    reveal_strlit("k");
    reveal_strlit("r");
    reveal_strlit("p");
    reveal_strlit("s");
    reveal_strlit("sh");
    reveal_strlit("t");
    reveal_strlit("si");
    reveal_strlit("ti");
    reveal_strlit("tu");
    reveal_strlit("hu");
    reveal_strlit("zi");
    reveal_strlit("m");
    reveal_strlit("L");
    reveal_strlit("\u{30a2}");
    reveal_strlit("\u{30a4}");
    reveal_strlit("\u{30a6}");
    reveal_strlit("\u{30a8}");
    reveal_strlit("\u{30aa}");
    lemma_syllabary_len();
    lemma_syllabary_vowel_tokens();
    assert("b"@ =~= seq!['b']);
    assert("ch"@ =~= seq!['c', 'h']);
    assert("d"@ =~= seq!['d']);
    assert("z"@ =~= seq!['z']);
    assert("f"@ =~= seq!['f']);
    assert("g"@ =~= seq!['g']);
    assert("h"@ =~= seq!['h']);
    assert("j"@ =~= seq!['j']);
    assert("k"@ =~= seq!['k']);
    assert("r"@ =~= seq!['r']);
    assert("p"@ =~= seq!['p']);
    assert("s"@ =~= seq!['s']);
    assert("sh"@ =~= seq!['s', 'h']);
    assert("t"@ =~= seq!['t']);
    assert("si"@ =~= seq!['s', 'i']);
    assert("ti"@ =~= seq!['t', 'i']);
    assert("tu"@ =~= seq!['t', 'u']);
    assert("hu"@ =~= seq!['h', 'u']);
    assert("zi"@ =~= seq!['z', 'i']);
    assert("m"@ =~= seq!['m']);
    assert("yi"@ =~= seq!['y', 'i']);
    assert("ye"@ =~= seq!['y', 'e']);
    assert("wu"@ =~= seq!['w', 'u']);
    assert("L"@ =~= seq!['L']);

    let q = seq![v];
    assert(q.len() == 1 && q[0] == v);
    let zipped = zip_pairs(katakana_syllabary(), katakana_keys_spec());
    let trimmed = assoc_remove(assoc_remove(assoc_remove(zipped, "yi"@), "ye"@), "wu"@);
    assert(katakana_pairs() == assoc_put_all(trimmed, katakana_fallbacks()));

    assert forall|i: int| 0 <= i < katakana_fallbacks().len() implies (#[trigger] katakana_fallbacks()[i]).0
        != q by {
        if i == 0 {
            assert(katakana_fallbacks()[0].0 == "b"@);
            assert("b"@[0] == 'b');
            assert("b"@.len() == 1);
            assert("b"@ != q);
        } else if i == 1 {
            assert(katakana_fallbacks()[1].0 == "ch"@);
            assert("ch"@.len() == 2);
            assert("ch"@ != q);
        } else if i == 2 {
            assert(katakana_fallbacks()[2].0 == "d"@);
            assert("d"@[0] == 'd');
            assert("d"@.len() == 1);
            assert("d"@ != q);
        } else if i == 3 {
            assert(katakana_fallbacks()[3].0 == "z"@);
            assert("z"@[0] == 'z');
            assert("z"@.len() == 1);
            assert("z"@ != q);
        } else if i == 4 {
            assert(katakana_fallbacks()[4].0 == "f"@);
            assert("f"@[0] == 'f');
            assert("f"@.len() == 1);
            assert("f"@ != q);
        } else if i == 5 {
            assert(katakana_fallbacks()[5].0 == "g"@);
            assert("g"@[0] == 'g');
            assert("g"@.len() == 1);
            assert("g"@ != q);
        } else if i == 6 {
            assert(katakana_fallbacks()[6].0 == "h"@);
            assert("h"@[0] == 'h');
            assert("h"@.len() == 1);
            assert("h"@ != q);
        } else if i == 7 {
            assert(katakana_fallbacks()[7].0 == "j"@);
            assert("j"@[0] == 'j');
            assert("j"@.len() == 1);
            assert("j"@ != q);
        } else if i == 8 {
            assert(katakana_fallbacks()[8].0 == "k"@);
            assert("k"@[0] == 'k');
            assert("k"@.len() == 1);
            assert("k"@ != q);
        } else if i == 9 {
            assert(katakana_fallbacks()[9].0 == "r"@);
            assert("r"@[0] == 'r');
            assert("r"@.len() == 1);
            assert("r"@ != q);
        } else if i == 10 {
            assert(katakana_fallbacks()[10].0 == "p"@);
            assert("p"@[0] == 'p');
            assert("p"@.len() == 1);
            assert("p"@ != q);
        } else if i == 11 {
            assert(katakana_fallbacks()[11].0 == "s"@);
            assert("s"@[0] == 's');
            assert("s"@.len() == 1);
            assert("s"@ != q);
        } else if i == 12 {
            assert(katakana_fallbacks()[12].0 == "sh"@);
            assert("sh"@.len() == 2);
            assert("sh"@ != q);
        } else if i == 13 {
            assert(katakana_fallbacks()[13].0 == "t"@);
            assert("t"@[0] == 't');
            assert("t"@.len() == 1);
            assert("t"@ != q);
        } else if i == 14 {
            assert(katakana_fallbacks()[14].0 == "si"@);
            assert("si"@.len() == 2);
            assert("si"@ != q);
        } else if i == 15 {
            assert(katakana_fallbacks()[15].0 == "ti"@);
            assert("ti"@.len() == 2);
            assert("ti"@ != q);
        } else if i == 16 {
            assert(katakana_fallbacks()[16].0 == "tu"@);
            assert("tu"@.len() == 2);
            assert("tu"@ != q);
        } else if i == 17 {
            assert(katakana_fallbacks()[17].0 == "hu"@);
            assert("hu"@.len() == 2);
            assert("hu"@ != q);
        } else if i == 18 {
            assert(katakana_fallbacks()[18].0 == "zi"@);
            assert("zi"@.len() == 2);
            assert("zi"@ != q);
        } else if i == 19 {
            assert(katakana_fallbacks()[19].0 == "m"@);
            assert("m"@[0] == 'm');
            assert("m"@.len() == 1);
            assert("m"@ != q);
        } else {
        }
    }
    lemma_pairs_last_get_absent(katakana_fallbacks(), q);
    lemma_assoc_get_put_all(trimmed, katakana_fallbacks(), q);

    assert(q != "yi"@ && q != "ye"@ && q != "wu"@);
    lemma_assoc_get_remove_other(assoc_remove(assoc_remove(zipped, "yi"@), "ye"@), "wu"@, q);
    lemma_assoc_get_remove_other(assoc_remove(zipped, "yi"@), "ye"@, q);
    lemma_assoc_get_remove_other(zipped, "yi"@, q);

    let iv = vowel_index(v);
    lemma_syllabary_vowel_tokens();
    assert(syllabary_spec()[iv] == q);
    assert(katakana_syllabary()[iv] == syllabary_spec()[iv]);
    assert(zipped[iv].0 == q);
    assert forall|j: int| 0 <= j < iv implies (#[trigger] zipped[j]).0 != q by {
        assert(katakana_syllabary()[j] == syllabary_spec()[j]);
        assert(zipped[j].0 == syllabary_spec()[j]);
        assert(syllabary_spec()[j] == seq![vowels_order()[j]]);
        if j == 0 {
            assert(vowels_order()[0] == 'a' && v != 'a');
        } else if j == 1 {
            assert(vowels_order()[1] == 'i' && v != 'i');
        } else if j == 2 {
            assert(vowels_order()[2] == 'u' && v != 'u');
        } else if j == 3 {
            assert(vowels_order()[3] == 'e' && v != 'e');
        } else {
        }
        assert(seq![vowels_order()[j]] != seq![v]);
    }
    lemma_assoc_get_found(zipped, q, iv);
    assert(zipped[iv].1 == katakana_keys_spec()[iv]);
    assert(katakana_keys_spec()[iv] =~= seq![vowel_kana_k(v)]);
}

/// The katakana table binds the long-vowel token to the long-vowel
/// mark; the hiragana table has no such entry.
pub proof fn lemma_katakana_long_entry()
    ensures
        assoc_get(katakana_pairs(), "L"@) == Some(seq!['\u{30fc}']),
{
    reveal_strlit("yi");
    reveal_strlit("ye");
    reveal_strlit("wu");
    reveal_strlit("b");
    reveal_strlit("ch");
    reveal_strlit("d");
    reveal_strlit("z");
    reveal_strlit("f");
    reveal_strlit("g");
    reveal_strlit("h");
    reveal_strlit("j");
    reveal_strlit("k");
    reveal_strlit("r");
    reveal_strlit("p");
    reveal_strlit("s");
    reveal_strlit("sh");
    reveal_strlit("t");
    reveal_strlit("si");
    reveal_strlit("ti");
    reveal_strlit("tu");
    reveal_strlit("hu");
    reveal_strlit("zi");
    reveal_strlit("m");
    reveal_strlit("L");
    reveal_strlit("\u{30fc}");
    lemma_syllabary_len();
    lemma_syllabary_no_long_token();
    assert("b"@ =~= seq!['b']);
    assert("ch"@ =~= seq!['c', 'h']);
    assert("d"@ =~= seq!['d']);
    assert("z"@ =~= seq!['z']);
    assert("f"@ =~= seq!['f']);
    assert("g"@ =~= seq!['g']);
    assert("h"@ =~= seq!['h']);
    assert("j"@ =~= seq!['j']);
    assert("k"@ =~= seq!['k']);
    assert("r"@ =~= seq!['r']);
    assert("p"@ =~= seq!['p']);
    assert("s"@ =~= seq!['s']);
    assert("sh"@ =~= seq!['s', 'h']);
    assert("t"@ =~= seq!['t']);
    assert("si"@ =~= seq!['s', 'i']);
    assert("ti"@ =~= seq!['t', 'i']);
    assert("tu"@ =~= seq!['t', 'u']);
    assert("hu"@ =~= seq!['h', 'u']);
    assert("zi"@ =~= seq!['z', 'i']);
    assert("m"@ =~= seq!['m']);
    assert("yi"@ =~= seq!['y', 'i']);
    assert("ye"@ =~= seq!['y', 'e']);
    assert("wu"@ =~= seq!['w', 'u']);
    assert("L"@ =~= seq!['L']);

    let q = "L"@;
    assert(q.len() == 1 && q[0] == 'L');
    let zipped = zip_pairs(katakana_syllabary(), katakana_keys_spec());
    let trimmed = assoc_remove(assoc_remove(assoc_remove(zipped, "yi"@), "ye"@), "wu"@);
    assert(katakana_pairs() == assoc_put_all(trimmed, katakana_fallbacks()));

    assert forall|i: int| 0 <= i < katakana_fallbacks().len() implies (#[trigger] katakana_fallbacks()[i]).0
        != q by {
        if i == 0 {
            assert(katakana_fallbacks()[0].0 == "b"@);
            assert("b"@[0] == 'b');
            assert("b"@.len() == 1);
            assert("b"@ != q);
        } else if i == 1 {
            assert(katakana_fallbacks()[1].0 == "ch"@);
            assert("ch"@.len() == 2);
            assert("ch"@ != q);
        } else if i == 2 {
            assert(katakana_fallbacks()[2].0 == "d"@);
            assert("d"@[0] == 'd');
            assert("d"@.len() == 1);
            assert("d"@ != q);
        } else if i == 3 {
            assert(katakana_fallbacks()[3].0 == "z"@);
            assert("z"@[0] == 'z');
            assert("z"@.len() == 1);
            assert("z"@ != q);
        } else if i == 4 {
            assert(katakana_fallbacks()[4].0 == "f"@);
            assert("f"@[0] == 'f');
            assert("f"@.len() == 1);
            assert("f"@ != q);
        } else if i == 5 {
            assert(katakana_fallbacks()[5].0 == "g"@);
            assert("g"@[0] == 'g');
            assert("g"@.len() == 1);
            assert("g"@ != q);
        } else if i == 6 {
            assert(katakana_fallbacks()[6].0 == "h"@);
            assert("h"@[0] == 'h');
            assert("h"@.len() == 1);
            assert("h"@ != q);
        } else if i == 7 {
            assert(katakana_fallbacks()[7].0 == "j"@);
            assert("j"@[0] == 'j');
            assert("j"@.len() == 1);
            assert("j"@ != q);
        } else if i == 8 {
            assert(katakana_fallbacks()[8].0 == "k"@);
            assert("k"@[0] == 'k');
            assert("k"@.len() == 1);
            assert("k"@ != q);
        } else if i == 9 {
            assert(katakana_fallbacks()[9].0 == "r"@);
            assert("r"@[0] == 'r');
            assert("r"@.len() == 1);
            assert("r"@ != q);
        } else if i == 10 {
            assert(katakana_fallbacks()[10].0 == "p"@);
            assert("p"@[0] == 'p');
            assert("p"@.len() == 1);
            assert("p"@ != q);
        } else if i == 11 {
            assert(katakana_fallbacks()[11].0 == "s"@);
            assert("s"@[0] == 's');
            assert("s"@.len() == 1);
            assert("s"@ != q);
        } else if i == 12 {
            assert(katakana_fallbacks()[12].0 == "sh"@);
            assert("sh"@.len() == 2);
            assert("sh"@ != q);
        } else if i == 13 {
            assert(katakana_fallbacks()[13].0 == "t"@);
            assert("t"@[0] == 't');
            assert("t"@.len() == 1);
            assert("t"@ != q);
        } else if i == 14 {
            assert(katakana_fallbacks()[14].0 == "si"@);
            assert("si"@.len() == 2);
            assert("si"@ != q);
        } else if i == 15 {
            assert(katakana_fallbacks()[15].0 == "ti"@);
            assert("ti"@.len() == 2);
            assert("ti"@ != q);
        } else if i == 16 {
            assert(katakana_fallbacks()[16].0 == "tu"@);
            assert("tu"@.len() == 2);
            assert("tu"@ != q);
        } else if i == 17 {
            assert(katakana_fallbacks()[17].0 == "hu"@);
            assert("hu"@.len() == 2);
            assert("hu"@ != q);
        } else if i == 18 {
            assert(katakana_fallbacks()[18].0 == "zi"@);
            assert("zi"@.len() == 2);
            assert("zi"@ != q);
        } else if i == 19 {
            assert(katakana_fallbacks()[19].0 == "m"@);
            assert("m"@[0] == 'm');
            assert("m"@.len() == 1);
            assert("m"@ != q);
        } else {
        }
    }
    lemma_pairs_last_get_absent(katakana_fallbacks(), q);
    lemma_assoc_get_put_all(trimmed, katakana_fallbacks(), q);

    assert(q != "yi"@ && q != "ye"@ && q != "wu"@);
    lemma_assoc_get_remove_other(assoc_remove(assoc_remove(zipped, "yi"@), "ye"@), "wu"@, q);
    lemma_assoc_get_remove_other(assoc_remove(zipped, "yi"@), "ye"@, q);
    lemma_assoc_get_remove_other(zipped, "yi"@, q);

    assert(katakana_syllabary().len() == 112);
    assert(katakana_syllabary()[111] == q);
    assert(zipped[111].0 == q);
    assert forall|j: int| 0 <= j < 111 implies (#[trigger] zipped[j]).0 != q by {
        assert(katakana_syllabary()[j] == syllabary_spec()[j]);
        assert(zipped[j].0 == syllabary_spec()[j]);
    }
    lemma_assoc_get_found(zipped, q, 111);
    assert(zipped[111].1 == katakana_keys_spec()[111]);
    assert(katakana_keys_spec()[111] =~= seq!['\u{30fc}']);
}

/// Two adjacent identical vowel tokens render in katakana as the
/// vowel kana followed by the long-vowel mark.
pub proof fn lemma_long_vowel_katakana(v: char)
    requires
        is_vowel(v),
    ensures
        render_kata_from(seq![seq![v], seq![v]], katakana_pairs(), Seq::empty(), ' ')
            == Some(seq![vowel_kana_k(v), '\u{30fc}']),
{
    lemma_katakana_vowel_entry(v);
    lemma_katakana_long_entry();
    let toks = seq![seq![v], seq![v]];
    let pairs = katakana_pairs();
    assert(toks[0] == seq![v]);
    assert(!(seq![v] == seq![' '] && is_letter(' ')));
    assert(is_letter(v));
    let acc1 = Seq::<char>::empty() + seq![vowel_kana_k(v)];
    assert(toks.drop_first() =~= seq![seq![v]]);
    assert(render_kata_from(toks, pairs, Seq::empty(), ' ') == render_kata_from(
        seq![seq![v]],
        pairs,
        acc1,
        v,
    ));
    assert(seq![seq![v]][0] == seq![v]);
    assert(seq![v] == seq![v] && is_letter(v));
    let acc2 = acc1 + seq!['\u{30fc}'];
    assert(seq![seq![v]].drop_first() =~= Seq::<Seq<char>>::empty());
    assert(render_kata_from(seq![seq![v]], pairs, acc1, v) == render_kata_from(
        Seq::empty(),
        pairs,
        acc2,
        v,
    ));
    assert(render_kata_from(Seq::<Seq<char>>::empty(), pairs, acc2, v) == Some(acc2));
    assert(acc2 =~= seq![vowel_kana_k(v), '\u{30fc}']);
}

/// The same two tokens render in hiragana as two separate vowel kana.
pub proof fn lemma_long_vowel_hiragana(v: char)
    requires
        is_vowel(v),
    ensures
        render_from(seq![seq![v], seq![v]], hiragana_pairs(), Seq::empty())
            == Some(seq![vowel_kana_h(v), vowel_kana_h(v)]),
{
    lemma_hiragana_vowel_entry(v);
    let toks = seq![seq![v], seq![v]];
    let pairs = hiragana_pairs();
    assert(toks[0] == seq![v]);
    assert(is_letter(v));
    let acc1 = Seq::<char>::empty() + seq![vowel_kana_h(v)];
    assert(toks.drop_first() =~= seq![seq![v]]);
    assert(render_from(toks, pairs, Seq::empty()) == render_from(seq![seq![v]], pairs, acc1));
    assert(seq![seq![v]][0] == seq![v]);
    let acc2 = acc1 + seq![vowel_kana_h(v)];
    assert(seq![seq![v]].drop_first() =~= Seq::<Seq<char>>::empty());
    assert(render_from(seq![seq![v]], pairs, acc1) == render_from(Seq::empty(), pairs, acc2));
    assert(render_from(Seq::<Seq<char>>::empty(), pairs, acc2) == Some(acc2));
    assert(acc2 =~= seq![vowel_kana_h(v), vowel_kana_h(v)]);
}


/// A syllable whose kana round-trips exactly: one of the single-kana
/// tokens listed in `plain_syllables`.
pub open spec fn plain_syllable(t: Seq<char>) -> bool {
    plain_syllables().contains(t)
}

/// The kana that the hiragana table holds for a token, as a single
/// character; tokens with no entry or a longer entry answer with a
/// blank.
pub open spec fn hira_kana_char(t: Seq<char>) -> char {
    match assoc_get(hiragana_pairs(), t) {
        Some(k) => if k.len() == 1 {
            k[0]
        } else {
            ' '
        },
        None => ' ',
    }
}

/// The hiragana string for a sequence of tokens that each map to one
/// kana.
pub open spec fn single_kana_string(toks: Seq<Seq<char>>) -> Seq<char>
    decreases toks.len(),
{
    if toks.len() == 0 {
        Seq::empty()
    } else {
        seq![hira_kana_char(toks[0])] + single_kana_string(toks.drop_first())
    }
}

/// What the round trip needs of one token: the forward table maps it
/// to one kana, the inverse table maps that kana straight back, and
/// the kana is an ordinary letter that triggers neither the glide
/// rule nor the gemination rule of the romanizer.
pub open spec fn invertible_pair(t: Seq<char>, k: char) -> bool {
    &&& assoc_get(hiragana_pairs(), t) == Some(seq![k])
    &&& assoc_get(roomaji_pairs(hiragana_keys_spec()), seq![k]) == Some(t)
    &&& is_letter(k)
    &&& !is_glide_h(k)
    &&& k != '\u{3063}'
    &&& t.len() > 0
    &&& is_letter(t[0])
}

/// Every plain syllable is invertible.
proof fn lemma_plain_invertible(t: Seq<char>)
    requires
        plain_syllable(t),
    ensures
        invertible_pair(t, hira_kana_char(t)),
{
    let w = choose|w: int| 0 <= w < plain_syllables().len() && plain_syllables()[w] == t;
    if w == 0 {
        crate::facts::syllable_fact_0();
    } else if w == 1 {
        crate::facts::syllable_fact_1();
    } else if w == 2 {
        crate::facts::syllable_fact_2();
    } else if w == 3 {
        crate::facts::syllable_fact_3();
    } else if w == 4 {
        crate::facts::syllable_fact_4();
    } else if w == 5 {
        crate::facts::syllable_fact_5();
    } else if w == 6 {
        crate::facts::syllable_fact_6();
    } else if w == 7 {
        crate::facts::syllable_fact_7();
    } else if w == 8 {
        crate::facts::syllable_fact_8();
    } else if w == 9 {
        crate::facts::syllable_fact_9();
    } else if w == 10 {
        crate::facts::syllable_fact_16();
    } else if w == 11 {
        crate::facts::syllable_fact_21();
    } else if w == 12 {
        crate::facts::syllable_fact_26();
    } else if w == 13 {
        crate::facts::syllable_fact_27();
    } else if w == 14 {
        crate::facts::syllable_fact_42();
    } else {
    }
}

/// Rendering a sequence of plain syllables cannot fail, and produces
/// exactly one kana per token.
proof fn lemma_render_plain(toks: Seq<Seq<char>>, acc: Seq<char>)
    requires
        forall|i: int| 0 <= i < toks.len() ==> plain_syllable(#[trigger] toks[i]),
    ensures
        render_from(toks, hiragana_pairs(), acc) == Some(acc + single_kana_string(toks)),
    decreases toks.len(),
{
    if toks.len() == 0 {
        assert(acc + single_kana_string(toks) =~= acc);
    } else {
        let t = toks[0];
        assert(plain_syllable(t));
        lemma_plain_invertible(t);
        let k = hira_kana_char(t);
        assert(forall|i: int| 0 <= i < toks.drop_first().len() ==> plain_syllable(
            #[trigger] toks.drop_first()[i],
        ));
        lemma_render_plain(toks.drop_first(), acc + seq![k]);
        assert(acc + seq![k] + single_kana_string(toks.drop_first()) =~= acc + single_kana_string(
            toks,
        ));
    }
}

/// Romanizing the kana of a sequence of plain syllables gives back
/// exactly the syllables, whatever well-behaved state the scan is in.
proof fn lemma_scan_plain(toks: Seq<Seq<char>>, out: Seq<char>, last: char)
    requires
        forall|i: int| 0 <= i < toks.len() ==> plain_syllable(#[trigger] toks[i]),
        last != '\u{3063}',
    ensures
        romaji_h_from(
            single_kana_string(toks),
            roomaji_pairs(hiragana_keys_spec()),
            out,
            last,
        ) == Some(out + concat_tokens(toks)),
    decreases toks.len(),
{
    if toks.len() == 0 {
        assert(single_kana_string(toks) =~= Seq::<char>::empty());
        assert(out + concat_tokens(toks) =~= out);
    } else {
        let t = toks[0];
        assert(plain_syllable(t));
        lemma_plain_invertible(t);
        let k = hira_kana_char(t);
        let s = single_kana_string(toks);
        assert(s[0] == k);
        assert(s.drop_first() =~= single_kana_string(toks.drop_first()));
        assert(forall|i: int| 0 <= i < toks.drop_first().len() ==> plain_syllable(
            #[trigger] toks.drop_first()[i],
        ));
        lemma_scan_plain(toks.drop_first(), out + t, k);
        assert(out + t + concat_tokens(toks.drop_first()) =~= out + concat_tokens(toks));
    }
}

/// The round trip: rendering a sequence of plain syllables to
/// hiragana succeeds, and romanizing the resulting kana string gives
/// back the concatenation of the original syllables.
pub proof fn lemma_round_trip_hiragana(toks: Seq<Seq<char>>)
    requires
        forall|i: int| 0 <= i < toks.len() ==> plain_syllable(#[trigger] toks[i]),
    ensures
        render_from(toks, hiragana_pairs(), Seq::empty()) == Some(single_kana_string(toks)),
        romaji_h_from(
            single_kana_string(toks),
            roomaji_pairs(hiragana_keys_spec()),
            Seq::empty(),
            ' ',
        ) == Some(concat_tokens(toks)),
{
    lemma_render_plain(toks, Seq::empty());
    assert(Seq::<char>::empty() + single_kana_string(toks) =~= single_kana_string(toks));
    lemma_scan_plain(toks, Seq::empty(), ' ');
    assert(Seq::<char>::empty() + concat_tokens(toks) =~= concat_tokens(toks));
}

} // verus!
