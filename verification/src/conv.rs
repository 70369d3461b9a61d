//! Construction of the syllabary and of the conversion tables.
//!
//! The syllabary is the canonical ordered list of Japanese syllable
//! tokens: the five vowels, the consonant-vowel grid, the
//! digraph-vowel grid, the nasal coda, the gemination marker, and one
//! foreign digraph, with five tokens renamed to their conventional
//! spellings.  Zipping the syllabary against a fixed list of kana code
//! points for a script yields the forward (syllable to kana) table;
//! zipping the other way round yields the inverse (kana to syllable)
//! table used for romanization.

use vstd::prelude::*;
use crate::chars::push_char;
use crate::chars::str_eq;
use crate::table::Table;
use crate::table::assoc_put;
use crate::table::assoc_put_all;
use crate::table::assoc_put_zip;
use crate::table::assoc_remove;

verus! {

/// The vowels, in syllabary order.
pub open spec fn vowels_order() -> Seq<char> {
    seq!['a', 'i', 'u', 'e', 'o']
}

/// The simple consonants, in syllabary order.
pub open spec fn consonant_onsets() -> Seq<Seq<char>> {
    seq![
        seq!['k'],
        seq!['g'],
        seq!['s'],
        seq!['z'],
        seq!['t'],
        seq!['d'],
        seq!['n'],
        seq!['h'],
        seq!['b'],
        seq!['p'],
        seq!['m'],
        seq!['y'],
        seq!['r'],
        seq!['w'],
    ]
}

/// The digraph onsets, in syllabary order.
pub open spec fn digraph_onsets() -> Seq<Seq<char>> {
    seq!["ky"@, "sh"@, "ch"@, "nq"@, "hy"@, "my"@, "ry"@, "gy"@, "j"@, "by"@, "py"@]
}

/// The vowels that combine with a digraph onset.
pub open spec fn digraph_vowels_order() -> Seq<char> {
    seq!['a', 'u', 'o']
}

/// One row of the syllable grid: the onset followed by each vowel in
/// turn.
pub open spec fn cv_row(onset: Seq<char>, vs: Seq<char>) -> Seq<Seq<char>>
    decreases vs.len(),
{
    if vs.len() == 0 {
        Seq::empty()
    } else {
        seq![onset.push(vs[0])] + cv_row(onset, vs.drop_first())
    }
}

/// The syllable grid: one row per onset.
pub open spec fn cv_grid(onsets: Seq<Seq<char>>, vs: Seq<char>) -> Seq<Seq<char>>
    decreases onsets.len(),
{
    if onsets.len() == 0 {
        Seq::empty()
    } else {
        cv_row(onsets[0], vs) + cv_grid(onsets.drop_first(), vs)
    }
}

pub proof fn lemma_cv_row_len(onset: Seq<char>, vs: Seq<char>)
    ensures
        cv_row(onset, vs).len() == vs.len(),
    decreases vs.len(),
{
    if vs.len() > 0 {
        lemma_cv_row_len(onset, vs.drop_first());
    }
}

pub proof fn lemma_cv_grid_len(onsets: Seq<Seq<char>>, vs: Seq<char>)
    ensures
        cv_grid(onsets, vs).len() == onsets.len() * vs.len(),
    decreases onsets.len(),
{
    if onsets.len() > 0 {
        lemma_cv_row_len(onsets[0], vs);
        lemma_cv_grid_len(onsets.drop_first(), vs);
        assert(onsets.len() * vs.len() == vs.len() + (onsets.len() - 1) * vs.len())
            by (nonlinear_arith);
    }
}

/// Extending the vowel list by one vowel appends one token to the row.
pub proof fn lemma_cv_row_push(onset: Seq<char>, vs: Seq<char>, v: char)
    ensures
        cv_row(onset, vs.push(v)) == cv_row(onset, vs).push(onset.push(v)),
    decreases vs.len(),
{
    if vs.len() == 0 {
        assert(vs.push(v).drop_first() =~= vs);
        assert(cv_row(onset, vs) =~= Seq::<Seq<char>>::empty());
        assert(cv_row(onset, vs.push(v)) =~= cv_row(onset, vs).push(onset.push(v)));
    } else {
        lemma_cv_row_push(onset, vs.drop_first(), v);
        assert(vs.push(v).drop_first() =~= vs.drop_first().push(v));
        assert(vs.push(v)[0] == vs[0]);
        assert(cv_row(onset, vs.push(v)) =~= cv_row(onset, vs).push(onset.push(v)));
    }
}

/// Extending a row by one vowel appends one token.
pub proof fn lemma_cv_row_take(onset: Seq<char>, vs: Seq<char>, i: int)
    requires
        0 <= i < vs.len(),
    ensures
        cv_row(onset, vs.take(i + 1)) == cv_row(onset, vs.take(i)).push(onset.push(vs[i])),
{
    lemma_cv_row_push(onset, vs.take(i), vs[i]);
    assert(vs.take(i + 1) =~= vs.take(i).push(vs[i]));
}

/// Extending the onset list by one onset appends one full row to the
/// grid.
pub proof fn lemma_cv_grid_push(onsets: Seq<Seq<char>>, vs: Seq<char>, onset: Seq<char>)
    ensures
        cv_grid(onsets.push(onset), vs) == cv_grid(onsets, vs) + cv_row(onset, vs),
    decreases onsets.len(),
{
    if onsets.len() == 0 {
        assert(onsets.push(onset).drop_first() =~= onsets);
        assert(cv_grid(onsets, vs) =~= Seq::<Seq<char>>::empty());
        assert(cv_grid(onsets.push(onset), vs) =~= cv_grid(onsets, vs) + cv_row(onset, vs));
    } else {
        lemma_cv_grid_push(onsets.drop_first(), vs, onset);
        assert(onsets.push(onset).drop_first() =~= onsets.drop_first().push(onset));
        assert(onsets.push(onset)[0] == onsets[0]);
        assert(cv_grid(onsets.push(onset), vs) =~= cv_grid(onsets, vs) + cv_row(onset, vs));
    }
}

/// Extending the grid by one onset appends one full row.
pub proof fn lemma_cv_grid_take(onsets: Seq<Seq<char>>, vs: Seq<char>, i: int)
    requires
        0 <= i < onsets.len(),
    ensures
        cv_grid(onsets.take(i + 1), vs) == cv_grid(onsets.take(i), vs) + cv_row(onsets[i], vs),
{
    lemma_cv_grid_push(onsets.take(i), vs, onsets[i]);
    assert(onsets.take(i + 1) =~= onsets.take(i).push(onsets[i]));
}

/// The syllabary before the conventional renamings: vowels, the
/// consonant grid, the digraph grid, the nasal coda, the gemination
/// marker, and the foreign digraph.
pub open spec fn raw_syllabary() -> Seq<Seq<char>> {
    cv_row(Seq::empty(), vowels_order()) + cv_grid(consonant_onsets(), vowels_order()) + cv_grid(
        digraph_onsets(),
        digraph_vowels_order(),
    ) + seq!["n"@, "G"@, "je"@]
}

/// The conventional spellings: si, ti, tu, hu and zi are written shi,
/// chi, tsu, fu and ji.
pub open spec fn rename_token(t: Seq<char>) -> Seq<char> {
    if t == "si"@ {
        "shi"@
    } else if t == "ti"@ {
        "chi"@
    } else if t == "tu"@ {
        "tsu"@
    } else if t == "hu"@ {
        "fu"@
    } else if t == "zi"@ {
        "ji"@
    } else {
        t
    }
}

/// The canonical syllabary.
pub open spec fn syllabary_spec() -> Seq<Seq<char>> {
    raw_syllabary().map_values(|t: Seq<char>| rename_token(t))
}

/// Returns the canonical ordered list of Japanese syllable tokens.
pub fn initialize_japanese_syllables() -> (syllabary: Vec<String>)
    ensures
        syllabary.deep_view() == syllabary_spec(),
{
    let vowels: Vec<char> = vec!['a', 'i', 'u', 'e', 'o'];
    let consonants: Vec<char> = vec!['k', 'g', 's', 'z', 't', 'd', 'n', 'h', 'b', 'p', 'm', 'y',
        'r', 'w'];
    let digraphs: Vec<&'static str> = vec!["ky", "sh", "ch", "nq", "hy", "my", "ry", "gy", "j",
        "by", "py"];
    let digraph_vowels: Vec<char> = vec!['a', 'u', 'o'];

    let mut raw: Vec<String> = Vec::new();

    let mut vi: usize = 0;
    while vi < vowels.len()
        invariant
            vi <= vowels.len(),
            vowels@ == vowels_order(),
            raw.deep_view() == cv_row(Seq::<char>::empty(), vowels_order().take(vi as int)),
        decreases vowels.len() - vi,
    {
        proof {
            lemma_cv_row_take(Seq::<char>::empty(), vowels_order(), vi as int);
        }
        let mut t = String::new();
        push_char(&mut t, vowels[vi]);
        proof {
            assert(t@ =~= Seq::<char>::empty().push(vowels_order()[vi as int]));
        }
        raw.push(t);
        proof {
            assert(raw.deep_view() =~= cv_row(
                Seq::<char>::empty(),
                vowels_order().take(vi as int + 1),
            ));
        }
        vi = vi + 1;
    }
    proof {
        assert(vowels_order().take(5) =~= vowels_order());
    }

    let ghost vowel_rows = cv_row(Seq::<char>::empty(), vowels_order());
    let mut ci: usize = 0;
    while ci < consonants.len()
        invariant
            ci <= consonants.len(),
            vowels@ == vowels_order(),
            consonants@.map_values(|c: char| seq![c]) == consonant_onsets(),
            consonants@.len() == consonant_onsets().len(),
            raw.deep_view() == vowel_rows + cv_grid(
                consonant_onsets().take(ci as int),
                vowels_order(),
            ),
        decreases consonants.len() - ci,
    {
        let ghost onset = consonant_onsets()[ci as int];
        let mut vi: usize = 0;
        while vi < vowels.len()
            invariant
                vi <= vowels.len(),
                ci < consonants.len(),
                vowels@ == vowels_order(),
                consonants@.map_values(|c: char| seq![c]) == consonant_onsets(),
                consonants@.len() == consonant_onsets().len(),
                onset == consonant_onsets()[ci as int],
                onset == seq![consonants@[ci as int]],
                raw.deep_view() == vowel_rows + cv_grid(
                    consonant_onsets().take(ci as int),
                    vowels_order(),
                ) + cv_row(onset, vowels_order().take(vi as int)),
            decreases vowels.len() - vi,
        {
            let ghost pre = raw.deep_view();
            proof {
                lemma_cv_row_take(onset, vowels_order(), vi as int);
                lemma_cv_row_len(Seq::<char>::empty(), vowels_order());
                lemma_cv_grid_len(consonant_onsets().take(ci as int), vowels_order());
                lemma_cv_row_len(onset, vowels_order().take(vi as int));
            }
            let mut t = String::new();
            push_char(&mut t, consonants[ci]);
            push_char(&mut t, vowels[vi]);
            proof {
                assert(t@ =~= onset.push(vowels_order()[vi as int]));
            }
            raw.push(t);
            proof {
                assert(raw.deep_view() =~= pre.push(t@));
                assert(pre.push(t@) =~= vowel_rows + cv_grid(
                    consonant_onsets().take(ci as int),
                    vowels_order(),
                ) + cv_row(onset, vowels_order().take(vi as int + 1)));
            }
            vi = vi + 1;
        }
        proof {
            lemma_cv_grid_take(consonant_onsets(), vowels_order(), ci as int);
            assert(vowels_order().take(5) =~= vowels_order());
            assert(raw.deep_view() =~= vowel_rows + cv_grid(
                consonant_onsets().take(ci as int + 1),
                vowels_order(),
            ));
        }
        ci = ci + 1;
    }
    proof {
        assert(consonant_onsets().take(14) =~= consonant_onsets());
    }

    let ghost simple_rows = vowel_rows + cv_grid(consonant_onsets(), vowels_order());
    proof {
        assert(digraphs.deep_view() =~= digraph_onsets());
    }
    let mut di: usize = 0;
    while di < digraphs.len()
        invariant
            di <= digraphs.len(),
            digraph_vowels@ == digraph_vowels_order(),
            digraphs.deep_view() == digraph_onsets(),
            digraphs@.len() == digraph_onsets().len(),
            raw.deep_view() == simple_rows + cv_grid(
                digraph_onsets().take(di as int),
                digraph_vowels_order(),
            ),
        decreases digraphs.len() - di,
    {
        let ghost onset = digraph_onsets()[di as int];
        let mut vi: usize = 0;
        while vi < digraph_vowels.len()
            invariant
                vi <= digraph_vowels.len(),
                di < digraphs.len(),
                digraph_vowels@ == digraph_vowels_order(),
                digraphs.deep_view() == digraph_onsets(),
                digraphs@.len() == digraph_onsets().len(),
                onset == digraph_onsets()[di as int],
                onset == digraphs@[di as int]@,
                raw.deep_view() == simple_rows + cv_grid(
                    digraph_onsets().take(di as int),
                    digraph_vowels_order(),
                ) + cv_row(onset, digraph_vowels_order().take(vi as int)),
            decreases digraph_vowels.len() - vi,
        {
            let ghost pre = raw.deep_view();
            proof {
                lemma_cv_row_take(onset, digraph_vowels_order(), vi as int);
                lemma_cv_grid_len(digraph_onsets().take(di as int), digraph_vowels_order());
                lemma_cv_row_len(onset, digraph_vowels_order().take(vi as int));
            }
            let mut t = String::from_str(digraphs[di]);
            push_char(&mut t, digraph_vowels[vi]);
            proof {
                assert(t@ =~= onset.push(digraph_vowels_order()[vi as int]));
            }
            raw.push(t);
            proof {
                assert(raw.deep_view() =~= pre.push(t@));
                assert(pre.push(t@) =~= simple_rows + cv_grid(
                    digraph_onsets().take(di as int),
                    digraph_vowels_order(),
                ) + cv_row(onset, digraph_vowels_order().take(vi as int + 1)));
            }
            vi = vi + 1;
        }
        proof {
            lemma_cv_grid_take(digraph_onsets(), digraph_vowels_order(), di as int);
            assert(digraph_vowels_order().take(3) =~= digraph_vowels_order());
            assert(raw.deep_view() =~= simple_rows + cv_grid(
                digraph_onsets().take(di as int + 1),
                digraph_vowels_order(),
            ));
        }
        di = di + 1;
    }
    proof {
        assert(digraph_onsets().take(11) =~= digraph_onsets());
    }

    // Final nasal, the gemination flag, and a digraph used mostly in
    // foreign words.
    let ghost grids = raw.deep_view();
    raw.push(String::from_str("n"));
    raw.push(String::from_str("G"));
    raw.push(String::from_str("je"));
    proof {
        assert(raw.deep_view() =~= grids.push("n"@).push("G"@).push("je"@));
        assert(grids.push("n"@).push("G"@).push("je"@) =~= raw_syllabary());
    }

    // Replace the phonemic spellings that are transcribed differently
    // by convention.
    let mut syllabary: Vec<String> = Vec::new();
    let mut i: usize = 0;
    while i < raw.len()
        invariant
            i <= raw.len(),
            raw.deep_view() == raw_syllabary(),
            raw@.len() == raw_syllabary().len(),
            syllabary.deep_view() == raw_syllabary().map_values(
                |t: Seq<char>| rename_token(t),
            ).take(i as int),
        decreases raw.len() - i,
    {
        proof {
            assert(raw@[i as int]@ == raw.deep_view()[i as int]);
        }
        let t = if str_eq(raw[i].as_str(), "si") {
            String::from_str("shi")
        } else if str_eq(raw[i].as_str(), "ti") {
            String::from_str("chi")
        } else if str_eq(raw[i].as_str(), "tu") {
            String::from_str("tsu")
        } else if str_eq(raw[i].as_str(), "hu") {
            String::from_str("fu")
        } else if str_eq(raw[i].as_str(), "zi") {
            String::from_str("ji")
        } else {
            raw[i].clone()
        };
        proof {
            assert(t@ == rename_token(raw.deep_view()[i as int]));
        }
        let ghost pre = syllabary.deep_view();
        syllabary.push(t);
        proof {
            let m = raw_syllabary().map_values(|t: Seq<char>| rename_token(t));
            assert(m[i as int] == rename_token(raw_syllabary()[i as int]));
            assert(syllabary.deep_view() =~= pre.push(t@));
            assert(pre.push(t@) =~= m.take(i as int + 1));
        }
        i = i + 1;
    }
    proof {
        assert(syllabary_spec().take(raw_syllabary().len() as int) =~= syllabary_spec());
    }
    syllabary
}


/// The hiragana code points, in syllabary order.  The three grid
/// positions with no kana of their own hold a placeholder.
pub open spec fn hiragana_keys_spec() -> Seq<Seq<char>> {
    seq![
        "\u{3042}"@, "\u{3044}"@, "\u{3046}"@, "\u{3048}"@, "\u{304a}"@, "\u{304b}"@,
        "\u{304d}"@, "\u{304f}"@, "\u{3051}"@, "\u{3053}"@, "\u{304c}"@, "\u{304e}"@,
        "\u{3050}"@, "\u{3052}"@, "\u{3054}"@, "\u{3055}"@, "\u{3057}"@, "\u{3059}"@,
        "\u{305b}"@, "\u{305d}"@, "\u{3056}"@, "\u{3058}"@, "\u{305a}"@, "\u{305c}"@,
        "\u{305e}"@, "\u{305f}"@, "\u{3061}"@, "\u{3064}"@, "\u{3066}"@, "\u{3068}"@,
        "\u{3060}"@, "\u{3062}"@, "\u{3065}"@, "\u{3067}"@, "\u{3069}"@, "\u{306a}"@,
        "\u{306b}"@, "\u{306c}"@, "\u{306d}"@, "\u{306e}"@, "\u{306f}"@, "\u{3072}"@,
        "\u{3075}"@, "\u{3078}"@, "\u{307b}"@, "\u{3070}"@, "\u{3073}"@, "\u{3076}"@,
        "\u{3079}"@, "\u{307c}"@, "\u{3071}"@, "\u{3074}"@, "\u{3077}"@, "\u{307a}"@,
        "\u{307d}"@, "\u{307e}"@, "\u{307f}"@, "\u{3080}"@, "\u{3081}"@, "\u{3082}"@,
        "\u{3084}"@, "NOT USED"@, "\u{3086}"@, "NOT USED"@, "\u{3088}"@, "\u{3089}"@,
        "\u{308a}"@, "\u{308b}"@, "\u{308c}"@, "\u{308d}"@, "\u{308f}"@, "\u{3090}"@,
        "NOT USED"@, "\u{3090}"@, "\u{3091}"@, "\u{304d}\u{3083}"@, "\u{304d}\u{3085}"@,
        "\u{304d}\u{3087}"@, "\u{3057}\u{3083}"@, "\u{3057}\u{3085}"@, "\u{3057}\u{3087}"@,
        "\u{3061}\u{3083}"@, "\u{3061}\u{3085}"@, "\u{3061}\u{3087}"@, "\u{306b}\u{3083}"@,
        "\u{306b}\u{3085}"@, "\u{306b}\u{3087}"@, "\u{3072}\u{3083}"@, "\u{3072}\u{3085}"@,
        "\u{3072}\u{3087}"@, "\u{307f}\u{3083}"@, "\u{307f}\u{3085}"@, "\u{307f}\u{3087}"@,
        "\u{308a}\u{3083}"@, "\u{308a}\u{3085}"@, "\u{308a}\u{3087}"@, "\u{304e}\u{3083}"@,
        "\u{304e}\u{3085}"@, "\u{304e}\u{3087}"@, "\u{3058}\u{3083}"@, "\u{3058}\u{3085}"@,
        "\u{3058}\u{3087}"@, "\u{3073}\u{3083}"@, "\u{3073}\u{3085}"@, "\u{3073}\u{3087}"@,
        "\u{3074}\u{3083}"@, "\u{3074}\u{3085}"@, "\u{3074}\u{3087}"@, "\u{3093}"@,
        "\u{3063}"@, "\u{3058}\u{3047}"@,
    ]
}

/// Returns the list of hiragana strings that is zipped against the
/// syllabary.
pub fn initialize_hiragana_keys() -> (keys: Vec<&'static str>)
    ensures
        keys.deep_view() == hiragana_keys_spec(),
{
    let unicodekeys: Vec<&'static str> = vec![
        "\u{3042}", "\u{3044}", "\u{3046}", "\u{3048}", "\u{304a}", "\u{304b}", "\u{304d}",
        "\u{304f}", "\u{3051}", "\u{3053}", "\u{304c}", "\u{304e}", "\u{3050}", "\u{3052}",
        "\u{3054}", "\u{3055}", "\u{3057}", "\u{3059}", "\u{305b}", "\u{305d}", "\u{3056}",
        "\u{3058}", "\u{305a}", "\u{305c}", "\u{305e}", "\u{305f}", "\u{3061}", "\u{3064}",
        "\u{3066}", "\u{3068}", "\u{3060}", "\u{3062}", "\u{3065}", "\u{3067}", "\u{3069}",
        "\u{306a}", "\u{306b}", "\u{306c}", "\u{306d}", "\u{306e}", "\u{306f}", "\u{3072}",
        "\u{3075}", "\u{3078}", "\u{307b}", "\u{3070}", "\u{3073}", "\u{3076}", "\u{3079}",
        "\u{307c}", "\u{3071}", "\u{3074}", "\u{3077}", "\u{307a}", "\u{307d}", "\u{307e}",
        "\u{307f}", "\u{3080}", "\u{3081}", "\u{3082}", "\u{3084}", "NOT USED", "\u{3086}",
        "NOT USED", "\u{3088}", "\u{3089}", "\u{308a}", "\u{308b}", "\u{308c}", "\u{308d}",
        "\u{308f}", "\u{3090}", "NOT USED", "\u{3090}", "\u{3091}", "\u{304d}\u{3083}",
        "\u{304d}\u{3085}", "\u{304d}\u{3087}", "\u{3057}\u{3083}", "\u{3057}\u{3085}",
        "\u{3057}\u{3087}", "\u{3061}\u{3083}", "\u{3061}\u{3085}", "\u{3061}\u{3087}",
        "\u{306b}\u{3083}", "\u{306b}\u{3085}", "\u{306b}\u{3087}", "\u{3072}\u{3083}",
        "\u{3072}\u{3085}", "\u{3072}\u{3087}", "\u{307f}\u{3083}", "\u{307f}\u{3085}",
        "\u{307f}\u{3087}", "\u{308a}\u{3083}", "\u{308a}\u{3085}", "\u{308a}\u{3087}",
        "\u{304e}\u{3083}", "\u{304e}\u{3085}", "\u{304e}\u{3087}", "\u{3058}\u{3083}",
        "\u{3058}\u{3085}", "\u{3058}\u{3087}", "\u{3073}\u{3083}", "\u{3073}\u{3085}",
        "\u{3073}\u{3087}", "\u{3074}\u{3083}", "\u{3074}\u{3085}", "\u{3074}\u{3087}",
        "\u{3093}", "\u{3063}", "\u{3058}\u{3047}",
    ];
    proof {
        assert(unicodekeys.deep_view() =~= hiragana_keys_spec());
    }
    unicodekeys
}

/// The katakana code points, in syllabary order, with the long-vowel
/// mark at the end.
pub open spec fn katakana_keys_spec() -> Seq<Seq<char>> {
    seq![
        "\u{30a2}"@, "\u{30a4}"@, "\u{30a6}"@, "\u{30a8}"@, "\u{30aa}"@, "\u{30ab}"@,
        "\u{30ad}"@, "\u{30af}"@, "\u{30b1}"@, "\u{30b3}"@, "\u{30ac}"@, "\u{30ae}"@,
        "\u{30b0}"@, "\u{30b2}"@, "\u{30b4}"@, "\u{30b5}"@, "\u{30b7}"@, "\u{30b9}"@,
        "\u{30bb}"@, "\u{30bd}"@, "\u{30b6}"@, "\u{30b8}"@, "\u{30ba}"@, "\u{30bc}"@,
        "\u{30be}"@, "\u{30bf}"@, "\u{30c1}"@, "\u{30c4}"@, "\u{30c6}"@, "\u{30c8}"@,
        "\u{30c0}"@, "\u{30c2}"@, "\u{30c5}"@, "\u{30c7}"@, "\u{30c9}"@, "\u{30ca}"@,
        "\u{30cb}"@, "\u{30cc}"@, "\u{30cd}"@, "\u{30ce}"@, "\u{30cf}"@, "\u{30d2}"@,
        "\u{30d5}"@, "\u{30d8}"@, "\u{30db}"@, "\u{30d0}"@, "\u{30d3}"@, "\u{30d6}"@,
        "\u{30d9}"@, "\u{30dc}"@, "\u{30d1}"@, "\u{30d4}"@, "\u{30d7}"@, "\u{30da}"@,
        "\u{30dd}"@, "\u{30de}"@, "\u{30df}"@, "\u{30e0}"@, "\u{30e1}"@, "\u{30e2}"@,
        "\u{30e4}"@, "NOT USED"@, "\u{30e6}"@, "NOT USED"@, "\u{30e8}"@, "\u{30e9}"@,
        "\u{30ea}"@, "\u{30eb}"@, "\u{30ec}"@, "\u{30ed}"@, "\u{30ef}"@, "\u{30f0}"@,
        "NOT USED"@, "\u{30f0}"@, "\u{30f1}"@, "\u{30ad}\u{30e3}"@, "\u{30ad}\u{30e5}"@,
        "\u{30ad}\u{30e7}"@, "\u{30b7}\u{30e3}"@, "\u{30b7}\u{30e5}"@, "\u{30b7}\u{30e7}"@,
        "\u{30c1}\u{30e3}"@, "\u{30c1}\u{30e5}"@, "\u{30c1}\u{30e7}"@, "\u{30cb}\u{30e3}"@,
        "\u{30cb}\u{30e5}"@, "\u{30cb}\u{30e7}"@, "\u{30d2}\u{30e3}"@, "\u{30d2}\u{30e5}"@,
        "\u{30d2}\u{30e7}"@, "\u{30df}\u{30e3}"@, "\u{30df}\u{30e5}"@, "\u{30df}\u{30e7}"@,
        "\u{30ea}\u{30e3}"@, "\u{30ea}\u{30e5}"@, "\u{30ea}\u{30e7}"@, "\u{30ae}\u{30e3}"@,
        "\u{30ae}\u{30e5}"@, "\u{30ae}\u{30e7}"@, "\u{30b8}\u{30e3}"@, "\u{30b8}\u{30e5}"@,
        "\u{30b8}\u{30e7}"@, "\u{30d3}\u{30e3}"@, "\u{30d3}\u{30e5}"@, "\u{30d3}\u{30e7}"@,
        "\u{30d4}\u{30e3}"@, "\u{30d4}\u{30e5}"@, "\u{30d4}\u{30e7}"@, "\u{30f3}"@,
        "\u{30c3}"@, "\u{30b8}\u{30a7}"@, "\u{30fc}"@,
    ]
}

/// Returns the list of katakana strings that is zipped against the
/// syllabary.
pub fn initialize_katakana_keys() -> (keys: Vec<&'static str>)
    ensures
        keys.deep_view() == katakana_keys_spec(),
{
    let unicodekeys: Vec<&'static str> = vec![
        "\u{30a2}", "\u{30a4}", "\u{30a6}", "\u{30a8}", "\u{30aa}", "\u{30ab}", "\u{30ad}",
        "\u{30af}", "\u{30b1}", "\u{30b3}", "\u{30ac}", "\u{30ae}", "\u{30b0}", "\u{30b2}",
        "\u{30b4}", "\u{30b5}", "\u{30b7}", "\u{30b9}", "\u{30bb}", "\u{30bd}", "\u{30b6}",
        "\u{30b8}", "\u{30ba}", "\u{30bc}", "\u{30be}", "\u{30bf}", "\u{30c1}", "\u{30c4}",
        "\u{30c6}", "\u{30c8}", "\u{30c0}", "\u{30c2}", "\u{30c5}", "\u{30c7}", "\u{30c9}",
        "\u{30ca}", "\u{30cb}", "\u{30cc}", "\u{30cd}", "\u{30ce}", "\u{30cf}", "\u{30d2}",
        "\u{30d5}", "\u{30d8}", "\u{30db}", "\u{30d0}", "\u{30d3}", "\u{30d6}", "\u{30d9}",
        "\u{30dc}", "\u{30d1}", "\u{30d4}", "\u{30d7}", "\u{30da}", "\u{30dd}", "\u{30de}",
        "\u{30df}", "\u{30e0}", "\u{30e1}", "\u{30e2}", "\u{30e4}", "NOT USED", "\u{30e6}",
        "NOT USED", "\u{30e8}", "\u{30e9}", "\u{30ea}", "\u{30eb}", "\u{30ec}", "\u{30ed}",
        "\u{30ef}", "\u{30f0}", "NOT USED", "\u{30f0}", "\u{30f1}", "\u{30ad}\u{30e3}",
        "\u{30ad}\u{30e5}", "\u{30ad}\u{30e7}", "\u{30b7}\u{30e3}", "\u{30b7}\u{30e5}",
        "\u{30b7}\u{30e7}", "\u{30c1}\u{30e3}", "\u{30c1}\u{30e5}", "\u{30c1}\u{30e7}",
        "\u{30cb}\u{30e3}", "\u{30cb}\u{30e5}", "\u{30cb}\u{30e7}", "\u{30d2}\u{30e3}",
        "\u{30d2}\u{30e5}", "\u{30d2}\u{30e7}", "\u{30df}\u{30e3}", "\u{30df}\u{30e5}",
        "\u{30df}\u{30e7}", "\u{30ea}\u{30e3}", "\u{30ea}\u{30e5}", "\u{30ea}\u{30e7}",
        "\u{30ae}\u{30e3}", "\u{30ae}\u{30e5}", "\u{30ae}\u{30e7}", "\u{30b8}\u{30e3}",
        "\u{30b8}\u{30e5}", "\u{30b8}\u{30e7}", "\u{30d3}\u{30e3}", "\u{30d3}\u{30e5}",
        "\u{30d3}\u{30e7}", "\u{30d4}\u{30e3}", "\u{30d4}\u{30e5}", "\u{30d4}\u{30e7}",
        "\u{30f3}", "\u{30c3}", "\u{30b8}\u{30a7}", "\u{30fc}",
    ];
    proof {
        assert(unicodekeys.deep_view() =~= katakana_keys_spec());
    }
    unicodekeys
}


/// The syllabary zipped entry by entry against a key list of the same
/// length.
pub open spec fn zip_pairs(ks: Seq<Seq<char>>, vs: Seq<Seq<char>>) -> Seq<(Seq<char>, Seq<char>)> {
    Seq::new(ks.len(), |i: int| (ks[i], vs[i]))
}

/// The consonant-only fallback entries for hiragana, giving the
/// coarse English-phoneme tokens a landing target.
pub open spec fn hiragana_fallbacks() -> Seq<(Seq<char>, Seq<char>)> {
    seq![
        ("b"@, "\u{3076}"@),
        ("ch"@, "\u{3061}"@),
        ("d"@, "\u{3069}"@),
        ("z"@, "\u{3058}"@),
        ("f"@, "\u{3075}"@),
        ("g"@, "\u{3050}"@),
        ("h"@, "\u{3075}"@),
        ("j"@, "\u{3058}"@),
        ("k"@, "\u{304f}"@),
        ("r"@, "\u{308b}"@),
        ("p"@, "\u{307d}"@),
        ("s"@, "\u{3059}"@),
        ("sh"@, "\u{3057}"@),
        ("t"@, "\u{3068}"@),
        ("si"@, "\u{3057}"@),
        ("ti"@, "\u{3061}"@),
        ("tu"@, "\u{3064}"@),
        ("hu"@, "\u{3075}"@),
        ("zi"@, "\u{3058}"@),
        ("m"@, "\u{3080}"@),
    ]
}

/// The consonant-only fallback entries for katakana.
pub open spec fn katakana_fallbacks() -> Seq<(Seq<char>, Seq<char>)> {
    seq![
        ("b"@, "\u{30d6}"@),
        ("ch"@, "\u{30c1}"@),
        ("d"@, "\u{30c9}"@),
        ("z"@, "\u{30b8}"@),
        ("f"@, "\u{30d5}"@),
        ("g"@, "\u{30b0}"@),
        ("h"@, "\u{30d5}"@),
        ("j"@, "\u{30b8}"@),
        ("k"@, "\u{30af}"@),
        ("r"@, "\u{30eb}"@),
        ("p"@, "\u{30dd}"@),
        ("s"@, "\u{30b9}"@),
        ("sh"@, "\u{30b7}"@),
        ("t"@, "\u{30c8}"@),
        ("si"@, "\u{30b7}"@),
        ("ti"@, "\u{30c1}"@),
        ("tu"@, "\u{30c4}"@),
        ("hu"@, "\u{30d5}"@),
        ("zi"@, "\u{30b8}"@),
        ("m"@, "\u{30e0}"@),
    ]
}

/// The katakana syllabary: the common syllabary with the long-vowel
/// token at the end.
pub open spec fn katakana_syllabary() -> Seq<Seq<char>> {
    syllabary_spec().push("L"@)
}

/// The hiragana table: the zip of the syllabary with the hiragana
/// keys, less the three phonotactically absent syllables, plus the
/// consonant fallbacks.
pub open spec fn hiragana_pairs() -> Seq<(Seq<char>, Seq<char>)> {
    let zipped = zip_pairs(syllabary_spec(), hiragana_keys_spec());
    let trimmed = assoc_remove(assoc_remove(assoc_remove(zipped, "yi"@), "ye"@), "wu"@);
    assoc_put_all(trimmed, hiragana_fallbacks())
}

/// The katakana table, built like the hiragana one from the extended
/// syllabary.
pub open spec fn katakana_pairs() -> Seq<(Seq<char>, Seq<char>)> {
    let zipped = zip_pairs(katakana_syllabary(), katakana_keys_spec());
    let trimmed = assoc_remove(assoc_remove(assoc_remove(zipped, "yi"@), "ye"@), "wu"@);
    assoc_put_all(trimmed, katakana_fallbacks())
}

/// The inverse tables, one per script: each kana string is bound to
/// its syllable, later bindings replacing earlier ones.
pub open spec fn roomaji_pairs(kana_keys: Seq<Seq<char>>) -> Seq<(Seq<char>, Seq<char>)> {
    assoc_put_zip(Seq::empty(), kana_keys, syllabary_spec())
}

/// The number of tokens in the common syllabary.
pub proof fn lemma_syllabary_len()
    ensures
        syllabary_spec().len() == 111,
{
    lemma_cv_row_len(Seq::<char>::empty(), vowels_order());
    lemma_cv_grid_len(consonant_onsets(), vowels_order());
    lemma_cv_grid_len(digraph_onsets(), digraph_vowels_order());
    assert(consonant_onsets().len() == 14);
    assert(digraph_onsets().len() == 11);
    assert(raw_syllabary().len() == 5 + 14 * 5 + 11 * 3 + 3);
    assert(syllabary_spec().len() == raw_syllabary().len());
}

/// Zips a syllabary vector against a key vector into a fresh table.
fn zip_into_table(syllabary: &Vec<String>, unicodekeys: &Vec<&'static str>) -> (table: Table)
    requires
        syllabary@.len() == unicodekeys@.len(),
    ensures
        table@ == zip_pairs(syllabary.deep_view(), unicodekeys.deep_view()),
{
    let mut table = Table::new();
    let mut i: usize = 0;
    while i < syllabary.len()
        invariant
            i <= syllabary@.len(),
            syllabary@.len() == unicodekeys@.len(),
            table@ == zip_pairs(syllabary.deep_view(), unicodekeys.deep_view()).take(i as int),
        decreases syllabary@.len() - i,
    {
        table.push_pair(syllabary[i].clone(), String::from_str(unicodekeys[i]));
        proof {
            assert(table@ =~= zip_pairs(syllabary.deep_view(), unicodekeys.deep_view()).take(
                i as int + 1,
            ));
        }
        i = i + 1;
    }
    proof {
        assert(zip_pairs(syllabary.deep_view(), unicodekeys.deep_view()).take(
            syllabary@.len() as int,
        ) =~= zip_pairs(syllabary.deep_view(), unicodekeys.deep_view()));
    }
    table
}

/// Binds every pair of a fallback list into the table, first pair
/// first.
fn put_fallbacks(table: &mut Table, falls: &Vec<(&'static str, &'static str)>)
    ensures
        final(table)@ == assoc_put_all(old(table)@, falls.deep_view()),
{
    let ghost target = assoc_put_all(table@, falls.deep_view());
    proof {
        assert(falls.deep_view().skip(0) =~= falls.deep_view());
    }
    let mut j: usize = 0;
    while j < falls.len()
        invariant
            j <= falls@.len(),
            target == assoc_put_all(table@, falls.deep_view().skip(j as int)),
        decreases falls@.len() - j,
    {
        let ghost pre = table@;
        let (k, v) = falls[j];
        table.insert(String::from_str(k), String::from_str(v));
        proof {
            let fs = falls.deep_view().skip(j as int);
            assert(fs[0] == falls.deep_view()[j as int]);
            assert(fs.drop_first() =~= falls.deep_view().skip(j as int + 1));
            assert(assoc_put_all(pre, fs) == assoc_put_all(
                assoc_put(pre, fs[0].0, fs[0].1),
                fs.drop_first(),
            ));
        }
        j = j + 1;
    }
    proof {
        assert(falls.deep_view().skip(falls@.len() as int) =~= Seq::<(Seq<char>, Seq<char>)>::empty());
    }
}

/// Returns the hiragana table: Latin syllable strings as keys and
/// hiragana strings as values.
pub fn initialize_hiragana() -> (table: Table)
    ensures
        table@ == hiragana_pairs(),
{
    let syllabary = initialize_japanese_syllables();
    let unicodekeys = initialize_hiragana_keys();
    proof {
        lemma_syllabary_len();
        assert(syllabary@.len() == syllabary.deep_view().len());
        assert(unicodekeys@.len() == unicodekeys.deep_view().len());
    }
    let mut table = zip_into_table(&syllabary, &unicodekeys);

    // These syllables are phonologically possible but do not have
    // associated kana.
    table.remove("yi");
    table.remove("ye");
    table.remove("wu");

    // Additional mappings to correspond with English consonants.
    let falls: Vec<(&'static str, &'static str)> = vec![
        ("b", "\u{3076}"),
        ("ch", "\u{3061}"),
        ("d", "\u{3069}"),
        ("z", "\u{3058}"),
        ("f", "\u{3075}"),
        ("g", "\u{3050}"),
        ("h", "\u{3075}"),
        ("j", "\u{3058}"),
        ("k", "\u{304f}"),
        ("r", "\u{308b}"),
        ("p", "\u{307d}"),
        ("s", "\u{3059}"),
        ("sh", "\u{3057}"),
        ("t", "\u{3068}"),
        ("si", "\u{3057}"),
        ("ti", "\u{3061}"),
        ("tu", "\u{3064}"),
        ("hu", "\u{3075}"),
        ("zi", "\u{3058}"),
        ("m", "\u{3080}"),
    ];
    proof {
        assert(falls.deep_view() =~= hiragana_fallbacks());
    }
    put_fallbacks(&mut table, &falls);
    table
}

/// Returns the katakana table: Latin syllable strings as keys and
/// katakana strings as values.
pub fn initialize_katakana() -> (table: Table)
    ensures
        table@ == katakana_pairs(),
{
    let mut syllabary = initialize_japanese_syllables();

    // This value is used to represent long vowels, mapping to the
    // katakana long-vowel mark.
    syllabary.push(String::from_str("L"));
    proof {
        lemma_syllabary_len();
        assert(syllabary.deep_view() =~= katakana_syllabary());
    }

    let unicodekeys = initialize_katakana_keys();
    proof {
        assert(syllabary@.len() == syllabary.deep_view().len());
        assert(unicodekeys@.len() == unicodekeys.deep_view().len());
    }
    let mut table = zip_into_table(&syllabary, &unicodekeys);

    // These syllables are phonologically possible but do not have
    // associated kana.
    table.remove("yi");
    table.remove("ye");
    table.remove("wu");

    // Additional mappings that correspond to English consonants.
    let falls: Vec<(&'static str, &'static str)> = vec![
        ("b", "\u{30d6}"),
        ("ch", "\u{30c1}"),
        ("d", "\u{30c9}"),
        ("z", "\u{30b8}"),
        ("f", "\u{30d5}"),
        ("g", "\u{30b0}"),
        ("h", "\u{30d5}"),
        ("j", "\u{30b8}"),
        ("k", "\u{30af}"),
        ("r", "\u{30eb}"),
        ("p", "\u{30dd}"),
        ("s", "\u{30b9}"),
        ("sh", "\u{30b7}"),
        ("t", "\u{30c8}"),
        ("si", "\u{30b7}"),
        ("ti", "\u{30c1}"),
        ("tu", "\u{30c4}"),
        ("hu", "\u{30d5}"),
        ("zi", "\u{30b8}"),
        ("m", "\u{30e0}"),
    ];
    proof {
        assert(falls.deep_view() =~= katakana_fallbacks());
    }
    put_fallbacks(&mut table, &falls);
    table
}

/// Returns an inverse table from kana strings to syllable strings,
/// for the script whose key list is supplied.
pub fn initilize_roomaji(kana_keys: &Vec<&'static str>) -> (table: Table)
    requires
        kana_keys@.len() >= syllabary_spec().len(),
    ensures
        table@ == roomaji_pairs(kana_keys.deep_view()),
{
    let syllabary = initialize_japanese_syllables();
    proof {
        lemma_syllabary_len();
    }
    let mut table = Table::new();
    let ghost target = roomaji_pairs(kana_keys.deep_view());
    proof {
        assert(kana_keys.deep_view().skip(0) =~= kana_keys.deep_view());
        assert(syllabary.deep_view().skip(0) =~= syllabary.deep_view());
        assert(syllabary@.len() == syllabary.deep_view().len());
    }
    let mut i: usize = 0;
    while i < syllabary.len()
        invariant
            i <= syllabary@.len(),
            syllabary.deep_view() == syllabary_spec(),
            syllabary@.len() == syllabary_spec().len(),
            kana_keys@.len() >= syllabary_spec().len(),
            target == assoc_put_zip(
                table@,
                kana_keys.deep_view().skip(i as int),
                syllabary.deep_view().skip(i as int),
            ),
        decreases syllabary@.len() - i,
    {
        let ghost pre = table@;
        table.insert(String::from_str(kana_keys[i]), syllabary[i].clone());
        proof {
            let ks = kana_keys.deep_view().skip(i as int);
            let vs = syllabary.deep_view().skip(i as int);
            assert(ks[0] == kana_keys.deep_view()[i as int]);
            assert(vs[0] == syllabary.deep_view()[i as int]);
            assert(ks.drop_first() =~= kana_keys.deep_view().skip(i as int + 1));
            assert(vs.drop_first() =~= syllabary.deep_view().skip(i as int + 1));
            assert(assoc_put_zip(pre, ks, vs) == assoc_put_zip(
                assoc_put(pre, ks[0], vs[0]),
                ks.drop_first(),
                vs.drop_first(),
            ));
        }
        i = i + 1;
    }
    proof {
        assert(syllabary.deep_view().skip(syllabary@.len() as int)
            =~= Seq::<Seq<char>>::empty());
    }
    table
}


/// The token at each position of a row.
pub proof fn lemma_cv_row_index(onset: Seq<char>, vs: Seq<char>, k: int)
    requires
        0 <= k < vs.len(),
    ensures
        cv_row(onset, vs).len() == vs.len(),
        cv_row(onset, vs)[k] == onset.push(vs[k]),
    decreases k,
{
    lemma_cv_row_len(onset, vs);
    if k == 0 {
    } else {
        lemma_cv_row_index(onset, vs.drop_first(), k - 1);
    }
}

/// Every token of a grid holds an onset character and a vowel, so it
/// is at least two characters long.
pub proof fn lemma_cv_grid_elt_len(onsets: Seq<Seq<char>>, vs: Seq<char>)
    requires
        forall|i: int| 0 <= i < onsets.len() ==> onsets[i].len() >= 1,
    ensures
        forall|k: int|
            0 <= k < cv_grid(onsets, vs).len() ==> (#[trigger] cv_grid(onsets, vs)[k]).len() >= 2,
    decreases onsets.len(),
{
    if onsets.len() > 0 {
        lemma_cv_row_len(onsets[0], vs);
        assert(forall|i: int| 0 <= i < onsets.drop_first().len() ==> onsets.drop_first()[i].len()
            >= 1);
        lemma_cv_grid_elt_len(onsets.drop_first(), vs);
        assert forall|k: int| 0 <= k < cv_grid(onsets, vs).len() implies (#[trigger] cv_grid(
            onsets,
            vs,
        )[k]).len() >= 2 by {
            if k < vs.len() {
                lemma_cv_row_index(onsets[0], vs, k);
                assert(cv_grid(onsets, vs)[k] == onsets[0].push(vs[k]));
            } else {
                assert(cv_grid(onsets, vs)[k] == cv_grid(onsets.drop_first(), vs)[k - vs.len()]);
            }
        }
    }
}

/// Renaming keeps a one-character token as it is and never shortens a
/// longer token below two characters.
pub proof fn lemma_rename_len(t: Seq<char>)
    ensures
        t.len() == 1 ==> rename_token(t) == t,
        t.len() >= 2 ==> rename_token(t).len() >= 2,
{
    reveal_strlit("si");
    reveal_strlit("shi");
    reveal_strlit("ti");
    reveal_strlit("chi");
    reveal_strlit("tu");
    reveal_strlit("tsu");
    reveal_strlit("hu");
    reveal_strlit("fu");
    reveal_strlit("zi");
    reveal_strlit("ji");
}

/// No syllable of the common syllabary is the long-vowel token, which
/// the katakana syllabary appends at the very end.
pub proof fn lemma_syllabary_no_long_token()
    ensures
        forall|j: int| 0 <= j < syllabary_spec().len() ==> syllabary_spec()[j] != "L"@,
{
    reveal_strlit("L");
    reveal_strlit("ky");
    reveal_strlit("sh");
    reveal_strlit("ch");
    reveal_strlit("nq");
    reveal_strlit("hy");
    reveal_strlit("my");
    reveal_strlit("ry");
    reveal_strlit("gy");
    reveal_strlit("j");
    reveal_strlit("by");
    reveal_strlit("py");
    reveal_strlit("n");
    reveal_strlit("G");
    reveal_strlit("je");
    lemma_syllabary_len();
    lemma_cv_row_len(Seq::<char>::empty(), vowels_order());
    lemma_cv_grid_len(consonant_onsets(), vowels_order());
    lemma_cv_grid_len(digraph_onsets(), digraph_vowels_order());
    assert(forall|i: int| 0 <= i < consonant_onsets().len() ==> consonant_onsets()[i].len() >= 1);
    assert(forall|i: int| 0 <= i < digraph_onsets().len() ==> digraph_onsets()[i].len() >= 1);
    lemma_cv_grid_elt_len(consonant_onsets(), vowels_order());
    lemma_cv_grid_elt_len(digraph_onsets(), digraph_vowels_order());

    let a = cv_row(Seq::<char>::empty(), vowels_order());
    let b = cv_grid(consonant_onsets(), vowels_order());
    let c = cv_grid(digraph_onsets(), digraph_vowels_order());
    let d = seq!["n"@, "G"@, "je"@];
    assert(a.len() == 5);
    assert(consonant_onsets().len() == 14);
    assert(vowels_order().len() == 5);
    assert(b.len() == 14 * 5);
    assert(digraph_onsets().len() == 11);
    assert(digraph_vowels_order().len() == 3);
    assert(c.len() == 11 * 3);
    assert(raw_syllabary() == a + b + c + d);
    assert forall|j: int| 0 <= j < syllabary_spec().len() implies syllabary_spec()[j] != "L"@ by {
        let raw = raw_syllabary();
        let t = raw[j];
        assert(t == (((a + b) + c) + d)[j]);
        assert(syllabary_spec()[j] == rename_token(t));
        lemma_rename_len(t);
        if j < 5 {
            assert(t == a[j]);
            lemma_cv_row_index(Seq::<char>::empty(), vowels_order(), j);
            assert(t == Seq::<char>::empty().push(vowels_order()[j]));
            assert(t.len() == 1 && t[0] != 'L');
            assert(rename_token(t) != "L"@);
        } else if j < 75 {
            assert(t == ((a + b) + c)[j]);
            assert(t == (a + b)[j]);
            assert(t == b[j - 5]);
            assert(t.len() >= 2);
            assert(rename_token(t).len() >= 2);
            assert(rename_token(t) != "L"@);
        } else if j < 108 {
            assert(t == ((a + b) + c)[j]);
            assert(t == c[j - 75]);
            assert(t.len() >= 2);
            assert(rename_token(t).len() >= 2);
            assert(rename_token(t) != "L"@);
        } else {
            assert(t == d[j - 108]);
            if j == 108 {
                assert(t == "n"@);
                assert(t.len() == 1 && t[0] != 'L');
                assert(rename_token(t) != "L"@);
            } else if j == 109 {
                assert(t == "G"@);
                assert(t.len() == 1 && t[0] != 'L');
                assert(rename_token(t) != "L"@);
            } else {
                assert(t == "je"@);
                assert(t.len() == 2);
                assert(rename_token(t).len() >= 2);
                assert(rename_token(t) != "L"@);
            }
        }
    }
}


/// The first five syllabary tokens are the bare vowels.
pub proof fn lemma_syllabary_vowel_tokens()
    ensures
        forall|j: int| 0 <= j < 5 ==> syllabary_spec()[j] =~= seq![vowels_order()[j]],
{
    lemma_syllabary_len();
    assert forall|j: int| 0 <= j < 5 implies syllabary_spec()[j] =~= seq![vowels_order()[j]] by {
        let a = cv_row(Seq::<char>::empty(), vowels_order());
        lemma_cv_row_index(Seq::<char>::empty(), vowels_order(), j);
        assert(raw_syllabary()[j] == a[j]);
        assert(raw_syllabary()[j] =~= seq![vowels_order()[j]]);
        lemma_rename_len(raw_syllabary()[j]);
        assert(syllabary_spec()[j] == rename_token(raw_syllabary()[j]));
    }
}



/// The token at row `r`, column `c` of a grid.
pub proof fn lemma_cv_grid_entry(onsets: Seq<Seq<char>>, vs: Seq<char>, r: int, c: int)
    requires
        0 <= r < onsets.len(),
        0 <= c < vs.len(),
    ensures
        cv_grid(onsets, vs).len() == onsets.len() * vs.len(),
        cv_grid(onsets, vs)[r * vs.len() + c] == onsets[r].push(vs[c]),
    decreases r,
{
    lemma_cv_grid_len(onsets, vs);
    lemma_cv_row_len(onsets[0], vs);
    assert(0 <= r * vs.len() + c < onsets.len() * vs.len()) by (nonlinear_arith)
        requires
            0 <= r < onsets.len(),
            0 <= c < vs.len(),
    ;
    if r == 0 {
        lemma_cv_row_index(onsets[0], vs, c);
        assert(cv_grid(onsets, vs)[c] == cv_row(onsets[0], vs)[c]);
        assert(r * vs.len() + c == c) by (nonlinear_arith)
            requires
                r == 0,
        ;
    } else {
        lemma_cv_grid_entry(onsets.drop_first(), vs, r - 1, c);
        assert(r * vs.len() + c - vs.len() == (r - 1) * vs.len() + c) by (nonlinear_arith);
        assert(r * vs.len() + c >= vs.len()) by (nonlinear_arith)
            requires
                r >= 1,
                0 <= c < vs.len(),
        ;
        assert(cv_grid(onsets, vs)[r * vs.len() + c] == cv_grid(onsets.drop_first(), vs)[(r - 1)
            * vs.len() + c]);
        assert(onsets.drop_first()[r - 1] == onsets[r]);
        assert(cv_grid(onsets, vs)[r * vs.len() + c] == onsets[r].push(vs[c]));
    }
}

} // verus!
