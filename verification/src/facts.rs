//! Ground facts about the generated tables, built once and shared by
//! the round-trip proof: the syllabary written out character by
//! character, token numbers for the syllabary, the key list and the
//! fallback keys, and, for every syllable that maps to a single kana,
//! the entries that the forward and the inverse hiragana tables hold.

use vstd::prelude::*;
use crate::chars::is_letter;
use crate::conv::cv_row;
use crate::conv::cv_grid;
use crate::conv::vowels_order;
use crate::conv::consonant_onsets;
use crate::conv::digraph_onsets;
use crate::conv::digraph_vowels_order;
use crate::conv::raw_syllabary;
use crate::conv::rename_token;
use crate::conv::syllabary_spec;
use crate::conv::hiragana_keys_spec;
use crate::conv::hiragana_pairs;
use crate::conv::hiragana_fallbacks;
use crate::conv::roomaji_pairs;
use crate::conv::zip_pairs;
use crate::conv::lemma_cv_row_len;
use crate::conv::lemma_cv_grid_len;
use crate::conv::lemma_syllabary_len;
use crate::table::assoc_get;
use crate::table::assoc_remove;
use crate::table::assoc_put_all;
use crate::table::assoc_put_zip;
use crate::table::zip_last_get;
use crate::table::lemma_assoc_get_found;
use crate::table::lemma_assoc_get_put_all;
use crate::table::lemma_assoc_get_put_zip;
use crate::table::lemma_assoc_get_remove_other;
use crate::table::lemma_pairs_last_get_absent;
use crate::table::lemma_zip_last_found;
use crate::trans::is_glide_h;

verus! {

/// A number that determines a short token, so that two tokens with
/// different numbers are different tokens.  Every character in the
/// syllabary and the key lists lies below the base.
pub open spec fn tok_code(s: Seq<char>) -> int {
    let m: int = 0x4000;
    if s.len() == 0 {
        -1
    } else {
        let c0: int = s[0] as u32 as int;
        let c1: int = if s.len() >= 2 { s[1] as u32 as int } else { 0 };
        let c2: int = if s.len() >= 3 { s[2] as u32 as int } else { 0 };
        s.len() as int * m * m * m + c0 * m * m + c1 * m + c2
    }
}

/// Different numbers mean different tokens.
pub proof fn lemma_code_distinct(a: Seq<char>, b: Seq<char>)
    requires
        tok_code(a) != tok_code(b),
    ensures
        a != b,
{
}

/// The canonical syllabary, written out character by character.
pub open spec fn syllabary_literal() -> Seq<Seq<char>> {
    seq![
        seq!['a'], seq!['i'], seq!['u'], seq!['e'], seq!['o'], seq!['k', 'a'], seq!['k', 'i'],
        seq!['k', 'u'], seq!['k', 'e'], seq!['k', 'o'], seq!['g', 'a'], seq!['g', 'i'],
        seq!['g', 'u'], seq!['g', 'e'], seq!['g', 'o'], seq!['s', 'a'], seq!['s', 'h', 'i'],
        seq!['s', 'u'], seq!['s', 'e'], seq!['s', 'o'], seq!['z', 'a'], seq!['j', 'i'],
        seq!['z', 'u'], seq!['z', 'e'], seq!['z', 'o'], seq!['t', 'a'], seq!['c', 'h', 'i'],
        seq!['t', 's', 'u'], seq!['t', 'e'], seq!['t', 'o'], seq!['d', 'a'], seq!['d', 'i'],
        seq!['d', 'u'], seq!['d', 'e'], seq!['d', 'o'], seq!['n', 'a'], seq!['n', 'i'],
        seq!['n', 'u'], seq!['n', 'e'], seq!['n', 'o'], seq!['h', 'a'], seq!['h', 'i'],
        seq!['f', 'u'], seq!['h', 'e'], seq!['h', 'o'], seq!['b', 'a'], seq!['b', 'i'],
        seq!['b', 'u'], seq!['b', 'e'], seq!['b', 'o'], seq!['p', 'a'], seq!['p', 'i'],
        seq!['p', 'u'], seq!['p', 'e'], seq!['p', 'o'], seq!['m', 'a'], seq!['m', 'i'],
        seq!['m', 'u'], seq!['m', 'e'], seq!['m', 'o'], seq!['y', 'a'], seq!['y', 'i'],
        seq!['y', 'u'], seq!['y', 'e'], seq!['y', 'o'], seq!['r', 'a'], seq!['r', 'i'],
        seq!['r', 'u'], seq!['r', 'e'], seq!['r', 'o'], seq!['w', 'a'], seq!['w', 'i'],
        seq!['w', 'u'], seq!['w', 'e'], seq!['w', 'o'], seq!['k', 'y', 'a'],
        seq!['k', 'y', 'u'], seq!['k', 'y', 'o'], seq!['s', 'h', 'a'], seq!['s', 'h', 'u'],
        seq!['s', 'h', 'o'], seq!['c', 'h', 'a'], seq!['c', 'h', 'u'], seq!['c', 'h', 'o'],
        seq!['n', 'q', 'a'], seq!['n', 'q', 'u'], seq!['n', 'q', 'o'], seq!['h', 'y', 'a'],
        seq!['h', 'y', 'u'], seq!['h', 'y', 'o'], seq!['m', 'y', 'a'], seq!['m', 'y', 'u'],
        seq!['m', 'y', 'o'], seq!['r', 'y', 'a'], seq!['r', 'y', 'u'], seq!['r', 'y', 'o'],
        seq!['g', 'y', 'a'], seq!['g', 'y', 'u'], seq!['g', 'y', 'o'], seq!['j', 'a'],
        seq!['j', 'u'], seq!['j', 'o'], seq!['b', 'y', 'a'], seq!['b', 'y', 'u'],
        seq!['b', 'y', 'o'], seq!['p', 'y', 'a'], seq!['p', 'y', 'u'], seq!['p', 'y', 'o'],
        seq!['n'], seq!['G'], seq!['j', 'e'],
    ]
}

/// The token number of each syllabary position.
pub open spec fn syllable_code_at(j: int) -> int {
    if j == 0 {
        0x40610000000
    } else if j == 1 {
        0x40690000000
    } else if j == 2 {
        0x40750000000
    } else if j == 3 {
        0x40650000000
    } else if j == 4 {
        0x406f0000000
    } else if j == 5 {
        0x806b0184000
    } else if j == 6 {
        0x806b01a4000
    } else if j == 7 {
        0x806b01d4000
    } else if j == 8 {
        0x806b0194000
    } else if j == 9 {
        0x806b01bc000
    } else if j == 10 {
        0x80670184000
    } else if j == 11 {
        0x806701a4000
    } else if j == 12 {
        0x806701d4000
    } else if j == 13 {
        0x80670194000
    } else if j == 14 {
        0x806701bc000
    } else if j == 15 {
        0x80730184000
    } else if j == 16 {
        0xc07301a0069
    } else if j == 17 {
        0x807301d4000
    } else if j == 18 {
        0x80730194000
    } else if j == 19 {
        0x807301bc000
    } else if j == 20 {
        0x807a0184000
    } else if j == 21 {
        0x806a01a4000
    } else if j == 22 {
        0x807a01d4000
    } else if j == 23 {
        0x807a0194000
    } else if j == 24 {
        0x807a01bc000
    } else if j == 25 {
        0x80740184000
    } else if j == 26 {
        0xc06301a0069
    } else if j == 27 {
        0xc07401cc075
    } else if j == 28 {
        0x80740194000
    } else if j == 29 {
        0x807401bc000
    } else if j == 30 {
        0x80640184000
    } else if j == 31 {
        0x806401a4000
    } else if j == 32 {
        0x806401d4000
    } else if j == 33 {
        0x80640194000
    } else if j == 34 {
        0x806401bc000
    } else if j == 35 {
        0x806e0184000
    } else if j == 36 {
        0x806e01a4000
    } else if j == 37 {
        0x806e01d4000
    } else if j == 38 {
        0x806e0194000
    } else if j == 39 {
        0x806e01bc000
    } else if j == 40 {
        0x80680184000
    } else if j == 41 {
        0x806801a4000
    } else if j == 42 {
        0x806601d4000
    } else if j == 43 {
        0x80680194000
    } else if j == 44 {
        0x806801bc000
    } else if j == 45 {
        0x80620184000
    } else if j == 46 {
        0x806201a4000
    } else if j == 47 {
        0x806201d4000
    } else if j == 48 {
        0x80620194000
    } else if j == 49 {
        0x806201bc000
    } else if j == 50 {
        0x80700184000
    } else if j == 51 {
        0x807001a4000
    } else if j == 52 {
        0x807001d4000
    } else if j == 53 {
        0x80700194000
    } else if j == 54 {
        0x807001bc000
    } else if j == 55 {
        0x806d0184000
    } else if j == 56 {
        0x806d01a4000
    } else if j == 57 {
        0x806d01d4000
    } else if j == 58 {
        0x806d0194000
    } else if j == 59 {
        0x806d01bc000
    } else if j == 60 {
        0x80790184000
    } else if j == 61 {
        0x807901a4000
    } else if j == 62 {
        0x807901d4000
    } else if j == 63 {
        0x80790194000
    } else if j == 64 {
        0x807901bc000
    } else if j == 65 {
        0x80720184000
    } else if j == 66 {
        0x807201a4000
    } else if j == 67 {
        0x807201d4000
    } else if j == 68 {
        0x80720194000
    } else if j == 69 {
        0x807201bc000
    } else if j == 70 {
        0x80770184000
    } else if j == 71 {
        0x807701a4000
    } else if j == 72 {
        0x807701d4000
    } else if j == 73 {
        0x80770194000
    } else if j == 74 {
        0x807701bc000
    } else if j == 75 {
        0xc06b01e4061
    } else if j == 76 {
        0xc06b01e4075
    } else if j == 77 {
        0xc06b01e406f
    } else if j == 78 {
        0xc07301a0061
    } else if j == 79 {
        0xc07301a0075
    } else if j == 80 {
        0xc07301a006f
    } else if j == 81 {
        0xc06301a0061
    } else if j == 82 {
        0xc06301a0075
    } else if j == 83 {
        0xc06301a006f
    } else if j == 84 {
        0xc06e01c4061
    } else if j == 85 {
        0xc06e01c4075
    } else if j == 86 {
        0xc06e01c406f
    } else if j == 87 {
        0xc06801e4061
    } else if j == 88 {
        0xc06801e4075
    } else if j == 89 {
        0xc06801e406f
    } else if j == 90 {
        0xc06d01e4061
    } else if j == 91 {
        0xc06d01e4075
    } else if j == 92 {
        0xc06d01e406f
    } else if j == 93 {
        0xc07201e4061
    } else if j == 94 {
        0xc07201e4075
    } else if j == 95 {
        0xc07201e406f
    } else if j == 96 {
        0xc06701e4061
    } else if j == 97 {
        0xc06701e4075
    } else if j == 98 {
        0xc06701e406f
    } else if j == 99 {
        0x806a0184000
    } else if j == 100 {
        0x806a01d4000
    } else if j == 101 {
        0x806a01bc000
    } else if j == 102 {
        0xc06201e4061
    } else if j == 103 {
        0xc06201e4075
    } else if j == 104 {
        0xc06201e406f
    } else if j == 105 {
        0xc07001e4061
    } else if j == 106 {
        0xc07001e4075
    } else if j == 107 {
        0xc07001e406f
    } else if j == 108 {
        0x406e0000000
    } else if j == 109 {
        0x40470000000
    } else if j == 110 {
        0x806a0194000
    } else {
        -2
    }
}

/// The token number of each hiragana key position.
pub open spec fn hira_key_code_at(j: int) -> int {
    if j == 0 {
        0x70420000000
    } else if j == 1 {
        0x70440000000
    } else if j == 2 {
        0x70460000000
    } else if j == 3 {
        0x70480000000
    } else if j == 4 {
        0x704a0000000
    } else if j == 5 {
        0x704b0000000
    } else if j == 6 {
        0x704d0000000
    } else if j == 7 {
        0x704f0000000
    } else if j == 8 {
        0x70510000000
    } else if j == 9 {
        0x70530000000
    } else if j == 10 {
        0x704c0000000
    } else if j == 11 {
        0x704e0000000
    } else if j == 12 {
        0x70500000000
    } else if j == 13 {
        0x70520000000
    } else if j == 14 {
        0x70540000000
    } else if j == 15 {
        0x70550000000
    } else if j == 16 {
        0x70570000000
    } else if j == 17 {
        0x70590000000
    } else if j == 18 {
        0x705b0000000
    } else if j == 19 {
        0x705d0000000
    } else if j == 20 {
        0x70560000000
    } else if j == 21 {
        0x70580000000
    } else if j == 22 {
        0x705a0000000
    } else if j == 23 {
        0x705c0000000
    } else if j == 24 {
        0x705e0000000
    } else if j == 25 {
        0x705f0000000
    } else if j == 26 {
        0x70610000000
    } else if j == 27 {
        0x70640000000
    } else if j == 28 {
        0x70660000000
    } else if j == 29 {
        0x70680000000
    } else if j == 30 {
        0x70600000000
    } else if j == 31 {
        0x70620000000
    } else if j == 32 {
        0x70650000000
    } else if j == 33 {
        0x70670000000
    } else if j == 34 {
        0x70690000000
    } else if j == 35 {
        0x706a0000000
    } else if j == 36 {
        0x706b0000000
    } else if j == 37 {
        0x706c0000000
    } else if j == 38 {
        0x706d0000000
    } else if j == 39 {
        0x706e0000000
    } else if j == 40 {
        0x706f0000000
    } else if j == 41 {
        0x70720000000
    } else if j == 42 {
        0x70750000000
    } else if j == 43 {
        0x70780000000
    } else if j == 44 {
        0x707b0000000
    } else if j == 45 {
        0x70700000000
    } else if j == 46 {
        0x70730000000
    } else if j == 47 {
        0x70760000000
    } else if j == 48 {
        0x70790000000
    } else if j == 49 {
        0x707c0000000
    } else if j == 50 {
        0x70710000000
    } else if j == 51 {
        0x70740000000
    } else if j == 52 {
        0x70770000000
    } else if j == 53 {
        0x707a0000000
    } else if j == 54 {
        0x707d0000000
    } else if j == 55 {
        0x707e0000000
    } else if j == 56 {
        0x707f0000000
    } else if j == 57 {
        0x70800000000
    } else if j == 58 {
        0x70810000000
    } else if j == 59 {
        0x70820000000
    } else if j == 60 {
        0x70840000000
    } else if j == 61 {
        0x2004e013c054
    } else if j == 62 {
        0x70860000000
    } else if j == 63 {
        0x2004e013c054
    } else if j == 64 {
        0x70880000000
    } else if j == 65 {
        0x70890000000
    } else if j == 66 {
        0x708a0000000
    } else if j == 67 {
        0x708b0000000
    } else if j == 68 {
        0x708c0000000
    } else if j == 69 {
        0x708d0000000
    } else if j == 70 {
        0x708f0000000
    } else if j == 71 {
        0x70900000000
    } else if j == 72 {
        0x2004e013c054
    } else if j == 73 {
        0x70900000000
    } else if j == 74 {
        0x70910000000
    } else if j == 75 {
        0xb04dc20c000
    } else if j == 76 {
        0xb04dc214000
    } else if j == 77 {
        0xb04dc21c000
    } else if j == 78 {
        0xb057c20c000
    } else if j == 79 {
        0xb057c214000
    } else if j == 80 {
        0xb057c21c000
    } else if j == 81 {
        0xb061c20c000
    } else if j == 82 {
        0xb061c214000
    } else if j == 83 {
        0xb061c21c000
    } else if j == 84 {
        0xb06bc20c000
    } else if j == 85 {
        0xb06bc214000
    } else if j == 86 {
        0xb06bc21c000
    } else if j == 87 {
        0xb072c20c000
    } else if j == 88 {
        0xb072c214000
    } else if j == 89 {
        0xb072c21c000
    } else if j == 90 {
        0xb07fc20c000
    } else if j == 91 {
        0xb07fc214000
    } else if j == 92 {
        0xb07fc21c000
    } else if j == 93 {
        0xb08ac20c000
    } else if j == 94 {
        0xb08ac214000
    } else if j == 95 {
        0xb08ac21c000
    } else if j == 96 {
        0xb04ec20c000
    } else if j == 97 {
        0xb04ec214000
    } else if j == 98 {
        0xb04ec21c000
    } else if j == 99 {
        0xb058c20c000
    } else if j == 100 {
        0xb058c214000
    } else if j == 101 {
        0xb058c21c000
    } else if j == 102 {
        0xb073c20c000
    } else if j == 103 {
        0xb073c214000
    } else if j == 104 {
        0xb073c21c000
    } else if j == 105 {
        0xb074c20c000
    } else if j == 106 {
        0xb074c214000
    } else if j == 107 {
        0xb074c21c000
    } else if j == 108 {
        0x70930000000
    } else if j == 109 {
        0x70630000000
    } else if j == 110 {
        0xb058c11c000
    } else {
        -2
    }
}

/// The token number of each hiragana fallback key.
pub open spec fn hira_fallback_code_at(j: int) -> int {
    if j == 0 {
        0x40620000000
    } else if j == 1 {
        0x806301a0000
    } else if j == 2 {
        0x40640000000
    } else if j == 3 {
        0x407a0000000
    } else if j == 4 {
        0x40660000000
    } else if j == 5 {
        0x40670000000
    } else if j == 6 {
        0x40680000000
    } else if j == 7 {
        0x406a0000000
    } else if j == 8 {
        0x406b0000000
    } else if j == 9 {
        0x40720000000
    } else if j == 10 {
        0x40700000000
    } else if j == 11 {
        0x40730000000
    } else if j == 12 {
        0x807301a0000
    } else if j == 13 {
        0x40740000000
    } else if j == 14 {
        0x807301a4000
    } else if j == 15 {
        0x807401a4000
    } else if j == 16 {
        0x807401d4000
    } else if j == 17 {
        0x806801d4000
    } else if j == 18 {
        0x807a01a4000
    } else if j == 19 {
        0x406d0000000
    } else {
        -2
    }
}

proof fn syllabary_literal_part_0_10()
    ensures
        forall|j: int| 0 <= j < 10 ==> syllabary_spec()[j] == syllabary_literal()[j],
{
    reveal_strlit("si");
    reveal_strlit("shi");
    reveal_strlit("ti");
    reveal_strlit("chi");
    reveal_strlit("tu");
    reveal_strlit("tsu");
    reveal_strlit("hu");
    reveal_strlit("fu");
    reveal_strlit("zi");
    reveal_strlit("ji");
    lemma_syllabary_len();
    lemma_cv_row_len(Seq::<char>::empty(), vowels_order());
    lemma_cv_grid_len(consonant_onsets(), vowels_order());
    lemma_cv_grid_len(digraph_onsets(), digraph_vowels_order());
    assert forall|j: int| 0 <= j < 10 implies syllabary_spec()[j] == syllabary_literal()[j] by {
        let pa = cv_row(Seq::<char>::empty(), vowels_order());
        let pb = cv_grid(consonant_onsets(), vowels_order());
        let pc = cv_grid(digraph_onsets(), digraph_vowels_order());
        let pd = seq!["n"@, "G"@, "je"@];
        assert(pa.len() == 5);
        assert(consonant_onsets().len() == 14 && vowels_order().len() == 5);
        assert(pb.len() == 14 * 5);
        assert(digraph_onsets().len() == 11 && digraph_vowels_order().len() == 3);
        assert(pc.len() == 11 * 3);
        assert(raw_syllabary() == pa + pb + pc + pd);
        if j == 0 {
            crate::conv::lemma_cv_row_index(Seq::<char>::empty(), vowels_order(), 0);
            assert(raw_syllabary()[0] == pa[0]);
            assert(raw_syllabary()[0] =~= seq!['a']);
            assert(syllabary_spec()[0] == rename_token(raw_syllabary()[0]));
            assert(raw_syllabary()[0] != "si"@) by {
                assert(tok_code(seq!['a']) != tok_code("si"@));
            }
            assert(raw_syllabary()[0] != "ti"@) by {
                assert(tok_code(seq!['a']) != tok_code("ti"@));
            }
            assert(raw_syllabary()[0] != "tu"@) by {
                assert(tok_code(seq!['a']) != tok_code("tu"@));
            }
            assert(raw_syllabary()[0] != "hu"@) by {
                assert(tok_code(seq!['a']) != tok_code("hu"@));
            }
            assert(raw_syllabary()[0] != "zi"@) by {
                assert(tok_code(seq!['a']) != tok_code("zi"@));
            }
            assert(rename_token(raw_syllabary()[0]) == raw_syllabary()[0]);
            assert(syllabary_spec()[0] =~= syllabary_literal()[0]);
        } else if j == 1 {
            crate::conv::lemma_cv_row_index(Seq::<char>::empty(), vowels_order(), 1);
            assert(raw_syllabary()[1] == pa[1]);
            assert(raw_syllabary()[1] =~= seq!['i']);
            assert(syllabary_spec()[1] == rename_token(raw_syllabary()[1]));
            assert(raw_syllabary()[1] != "si"@) by {
                assert(tok_code(seq!['i']) != tok_code("si"@));
            }
            assert(raw_syllabary()[1] != "ti"@) by {
                assert(tok_code(seq!['i']) != tok_code("ti"@));
            }
            assert(raw_syllabary()[1] != "tu"@) by {
                assert(tok_code(seq!['i']) != tok_code("tu"@));
            }
            assert(raw_syllabary()[1] != "hu"@) by {
                assert(tok_code(seq!['i']) != tok_code("hu"@));
            }
            assert(raw_syllabary()[1] != "zi"@) by {
                assert(tok_code(seq!['i']) != tok_code("zi"@));
            }
            assert(rename_token(raw_syllabary()[1]) == raw_syllabary()[1]);
            assert(syllabary_spec()[1] =~= syllabary_literal()[1]);
        } else if j == 2 {
            crate::conv::lemma_cv_row_index(Seq::<char>::empty(), vowels_order(), 2);
            assert(raw_syllabary()[2] == pa[2]);
            assert(raw_syllabary()[2] =~= seq!['u']);
            assert(syllabary_spec()[2] == rename_token(raw_syllabary()[2]));
            assert(raw_syllabary()[2] != "si"@) by {
                assert(tok_code(seq!['u']) != tok_code("si"@));
            }
            assert(raw_syllabary()[2] != "ti"@) by {
                assert(tok_code(seq!['u']) != tok_code("ti"@));
            }
            assert(raw_syllabary()[2] != "tu"@) by {
                assert(tok_code(seq!['u']) != tok_code("tu"@));
            }
            assert(raw_syllabary()[2] != "hu"@) by {
                assert(tok_code(seq!['u']) != tok_code("hu"@));
            }
            assert(raw_syllabary()[2] != "zi"@) by {
                assert(tok_code(seq!['u']) != tok_code("zi"@));
            }
            assert(rename_token(raw_syllabary()[2]) == raw_syllabary()[2]);
            assert(syllabary_spec()[2] =~= syllabary_literal()[2]);
        } else if j == 3 {
            crate::conv::lemma_cv_row_index(Seq::<char>::empty(), vowels_order(), 3);
            assert(raw_syllabary()[3] == pa[3]);
            assert(raw_syllabary()[3] =~= seq!['e']);
            assert(syllabary_spec()[3] == rename_token(raw_syllabary()[3]));
            assert(raw_syllabary()[3] != "si"@) by {
                assert(tok_code(seq!['e']) != tok_code("si"@));
            }
            assert(raw_syllabary()[3] != "ti"@) by {
                assert(tok_code(seq!['e']) != tok_code("ti"@));
            }
            assert(raw_syllabary()[3] != "tu"@) by {
                assert(tok_code(seq!['e']) != tok_code("tu"@));
            }
            assert(raw_syllabary()[3] != "hu"@) by {
                assert(tok_code(seq!['e']) != tok_code("hu"@));
            }
            assert(raw_syllabary()[3] != "zi"@) by {
                assert(tok_code(seq!['e']) != tok_code("zi"@));
            }
            assert(rename_token(raw_syllabary()[3]) == raw_syllabary()[3]);
            assert(syllabary_spec()[3] =~= syllabary_literal()[3]);
        } else if j == 4 {
            crate::conv::lemma_cv_row_index(Seq::<char>::empty(), vowels_order(), 4);
            assert(raw_syllabary()[4] == pa[4]);
            assert(raw_syllabary()[4] =~= seq!['o']);
            assert(syllabary_spec()[4] == rename_token(raw_syllabary()[4]));
            assert(raw_syllabary()[4] != "si"@) by {
                assert(tok_code(seq!['o']) != tok_code("si"@));
            }
            assert(raw_syllabary()[4] != "ti"@) by {
                assert(tok_code(seq!['o']) != tok_code("ti"@));
            }
            assert(raw_syllabary()[4] != "tu"@) by {
                assert(tok_code(seq!['o']) != tok_code("tu"@));
            }
            assert(raw_syllabary()[4] != "hu"@) by {
                assert(tok_code(seq!['o']) != tok_code("hu"@));
            }
            assert(raw_syllabary()[4] != "zi"@) by {
                assert(tok_code(seq!['o']) != tok_code("zi"@));
            }
            assert(rename_token(raw_syllabary()[4]) == raw_syllabary()[4]);
            assert(syllabary_spec()[4] =~= syllabary_literal()[4]);
        } else if j == 5 {
            crate::conv::lemma_cv_grid_entry(consonant_onsets(), vowels_order(), 0, 0);
            assert(pb[0] == consonant_onsets()[0].push(vowels_order()[0]));
            assert(raw_syllabary()[5] == pb[0]);
            assert(raw_syllabary()[5] =~= seq!['k', 'a']);
            assert(syllabary_spec()[5] == rename_token(raw_syllabary()[5]));
            assert(raw_syllabary()[5] != "si"@) by {
                assert(tok_code(seq!['k', 'a']) != tok_code("si"@));
            }
            assert(raw_syllabary()[5] != "ti"@) by {
                assert(tok_code(seq!['k', 'a']) != tok_code("ti"@));
            }
            assert(raw_syllabary()[5] != "tu"@) by {
                assert(tok_code(seq!['k', 'a']) != tok_code("tu"@));
            }
            assert(raw_syllabary()[5] != "hu"@) by {
                assert(tok_code(seq!['k', 'a']) != tok_code("hu"@));
            }
            assert(raw_syllabary()[5] != "zi"@) by {
                assert(tok_code(seq!['k', 'a']) != tok_code("zi"@));
            }
            assert(rename_token(raw_syllabary()[5]) == raw_syllabary()[5]);
            assert(syllabary_spec()[5] =~= syllabary_literal()[5]);
        } else if j == 6 {
            crate::conv::lemma_cv_grid_entry(consonant_onsets(), vowels_order(), 0, 1);
            assert(pb[1] == consonant_onsets()[0].push(vowels_order()[1]));
            assert(raw_syllabary()[6] == pb[1]);
            assert(raw_syllabary()[6] =~= seq!['k', 'i']);
            assert(syllabary_spec()[6] == rename_token(raw_syllabary()[6]));
            assert(raw_syllabary()[6] != "si"@) by {
                assert(tok_code(seq!['k', 'i']) != tok_code("si"@));
            }
            assert(raw_syllabary()[6] != "ti"@) by {
                assert(tok_code(seq!['k', 'i']) != tok_code("ti"@));
            }
            assert(raw_syllabary()[6] != "tu"@) by {
                assert(tok_code(seq!['k', 'i']) != tok_code("tu"@));
            }
            assert(raw_syllabary()[6] != "hu"@) by {
                assert(tok_code(seq!['k', 'i']) != tok_code("hu"@));
            }
            assert(raw_syllabary()[6] != "zi"@) by {
                assert(tok_code(seq!['k', 'i']) != tok_code("zi"@));
            }
            assert(rename_token(raw_syllabary()[6]) == raw_syllabary()[6]);
            assert(syllabary_spec()[6] =~= syllabary_literal()[6]);
        } else if j == 7 {
            crate::conv::lemma_cv_grid_entry(consonant_onsets(), vowels_order(), 0, 2);
            assert(pb[2] == consonant_onsets()[0].push(vowels_order()[2]));
            assert(raw_syllabary()[7] == pb[2]);
            assert(raw_syllabary()[7] =~= seq!['k', 'u']);
            assert(syllabary_spec()[7] == rename_token(raw_syllabary()[7]));
            assert(raw_syllabary()[7] != "si"@) by {
                assert(tok_code(seq!['k', 'u']) != tok_code("si"@));
            }
            assert(raw_syllabary()[7] != "ti"@) by {
                assert(tok_code(seq!['k', 'u']) != tok_code("ti"@));
            }
            assert(raw_syllabary()[7] != "tu"@) by {
                assert(tok_code(seq!['k', 'u']) != tok_code("tu"@));
            }
            assert(raw_syllabary()[7] != "hu"@) by {
                assert(tok_code(seq!['k', 'u']) != tok_code("hu"@));
            }
            assert(raw_syllabary()[7] != "zi"@) by {
                assert(tok_code(seq!['k', 'u']) != tok_code("zi"@));
            }
            assert(rename_token(raw_syllabary()[7]) == raw_syllabary()[7]);
            assert(syllabary_spec()[7] =~= syllabary_literal()[7]);
        } else if j == 8 {
            crate::conv::lemma_cv_grid_entry(consonant_onsets(), vowels_order(), 0, 3);
            assert(pb[3] == consonant_onsets()[0].push(vowels_order()[3]));
            assert(raw_syllabary()[8] == pb[3]);
            assert(raw_syllabary()[8] =~= seq!['k', 'e']);
            assert(syllabary_spec()[8] == rename_token(raw_syllabary()[8]));
            assert(raw_syllabary()[8] != "si"@) by {
                assert(tok_code(seq!['k', 'e']) != tok_code("si"@));
            }
            assert(raw_syllabary()[8] != "ti"@) by {
                assert(tok_code(seq!['k', 'e']) != tok_code("ti"@));
            }
            assert(raw_syllabary()[8] != "tu"@) by {
                assert(tok_code(seq!['k', 'e']) != tok_code("tu"@));
            }
            assert(raw_syllabary()[8] != "hu"@) by {
                assert(tok_code(seq!['k', 'e']) != tok_code("hu"@));
            }
            assert(raw_syllabary()[8] != "zi"@) by {
                assert(tok_code(seq!['k', 'e']) != tok_code("zi"@));
            }
            assert(rename_token(raw_syllabary()[8]) == raw_syllabary()[8]);
            assert(syllabary_spec()[8] =~= syllabary_literal()[8]);
        } else if j == 9 {
            crate::conv::lemma_cv_grid_entry(consonant_onsets(), vowels_order(), 0, 4);
            assert(pb[4] == consonant_onsets()[0].push(vowels_order()[4]));
            assert(raw_syllabary()[9] == pb[4]);
            assert(raw_syllabary()[9] =~= seq!['k', 'o']);
            assert(syllabary_spec()[9] == rename_token(raw_syllabary()[9]));
            assert(raw_syllabary()[9] != "si"@) by {
                assert(tok_code(seq!['k', 'o']) != tok_code("si"@));
            }
            assert(raw_syllabary()[9] != "ti"@) by {
                assert(tok_code(seq!['k', 'o']) != tok_code("ti"@));
            }
            assert(raw_syllabary()[9] != "tu"@) by {
                assert(tok_code(seq!['k', 'o']) != tok_code("tu"@));
            }
            assert(raw_syllabary()[9] != "hu"@) by {
                assert(tok_code(seq!['k', 'o']) != tok_code("hu"@));
            }
            assert(raw_syllabary()[9] != "zi"@) by {
                assert(tok_code(seq!['k', 'o']) != tok_code("zi"@));
            }
            assert(rename_token(raw_syllabary()[9]) == raw_syllabary()[9]);
            assert(syllabary_spec()[9] =~= syllabary_literal()[9]);
        } else {
        }
    }
}

proof fn syllabary_literal_part_10_20()
    ensures
        forall|j: int| 10 <= j < 20 ==> syllabary_spec()[j] == syllabary_literal()[j],
{
    reveal_strlit("si");
    reveal_strlit("shi");
    reveal_strlit("ti");
    reveal_strlit("chi");
    reveal_strlit("tu");
    reveal_strlit("tsu");
    reveal_strlit("hu");
    reveal_strlit("fu");
    reveal_strlit("zi");
    reveal_strlit("ji");
    lemma_syllabary_len();
    lemma_cv_row_len(Seq::<char>::empty(), vowels_order());
    lemma_cv_grid_len(consonant_onsets(), vowels_order());
    lemma_cv_grid_len(digraph_onsets(), digraph_vowels_order());
    assert forall|j: int| 10 <= j < 20 implies syllabary_spec()[j] == syllabary_literal()[j] by {
        let pa = cv_row(Seq::<char>::empty(), vowels_order());
        let pb = cv_grid(consonant_onsets(), vowels_order());
        let pc = cv_grid(digraph_onsets(), digraph_vowels_order());
        let pd = seq!["n"@, "G"@, "je"@];
        assert(pa.len() == 5);
        assert(consonant_onsets().len() == 14 && vowels_order().len() == 5);
        assert(pb.len() == 14 * 5);
        assert(digraph_onsets().len() == 11 && digraph_vowels_order().len() == 3);
        assert(pc.len() == 11 * 3);
        assert(raw_syllabary() == pa + pb + pc + pd);
        if j == 10 {
            crate::conv::lemma_cv_grid_entry(consonant_onsets(), vowels_order(), 1, 0);
            assert(pb[5] == consonant_onsets()[1].push(vowels_order()[0]));
            assert(raw_syllabary()[10] == pb[5]);
            assert(raw_syllabary()[10] =~= seq!['g', 'a']);
            assert(syllabary_spec()[10] == rename_token(raw_syllabary()[10]));
            assert(raw_syllabary()[10] != "si"@) by {
                assert(tok_code(seq!['g', 'a']) != tok_code("si"@));
            }
            assert(raw_syllabary()[10] != "ti"@) by {
                assert(tok_code(seq!['g', 'a']) != tok_code("ti"@));
            }
            assert(raw_syllabary()[10] != "tu"@) by {
                assert(tok_code(seq!['g', 'a']) != tok_code("tu"@));
            }
            assert(raw_syllabary()[10] != "hu"@) by {
                assert(tok_code(seq!['g', 'a']) != tok_code("hu"@));
            }
            assert(raw_syllabary()[10] != "zi"@) by {
                assert(tok_code(seq!['g', 'a']) != tok_code("zi"@));
            }
            assert(rename_token(raw_syllabary()[10]) == raw_syllabary()[10]);
            assert(syllabary_spec()[10] =~= syllabary_literal()[10]);
        } else if j == 11 {
            crate::conv::lemma_cv_grid_entry(consonant_onsets(), vowels_order(), 1, 1);
            assert(pb[6] == consonant_onsets()[1].push(vowels_order()[1]));
            assert(raw_syllabary()[11] == pb[6]);
            assert(raw_syllabary()[11] =~= seq!['g', 'i']);
            assert(syllabary_spec()[11] == rename_token(raw_syllabary()[11]));
            assert(raw_syllabary()[11] != "si"@) by {
                assert(tok_code(seq!['g', 'i']) != tok_code("si"@));
            }
            assert(raw_syllabary()[11] != "ti"@) by {
                assert(tok_code(seq!['g', 'i']) != tok_code("ti"@));
            }
            assert(raw_syllabary()[11] != "tu"@) by {
                assert(tok_code(seq!['g', 'i']) != tok_code("tu"@));
            }
            assert(raw_syllabary()[11] != "hu"@) by {
                assert(tok_code(seq!['g', 'i']) != tok_code("hu"@));
            }
            assert(raw_syllabary()[11] != "zi"@) by {
                assert(tok_code(seq!['g', 'i']) != tok_code("zi"@));
            }
            assert(rename_token(raw_syllabary()[11]) == raw_syllabary()[11]);
            assert(syllabary_spec()[11] =~= syllabary_literal()[11]);
        } else if j == 12 {
            crate::conv::lemma_cv_grid_entry(consonant_onsets(), vowels_order(), 1, 2);
            assert(pb[7] == consonant_onsets()[1].push(vowels_order()[2]));
            assert(raw_syllabary()[12] == pb[7]);
            assert(raw_syllabary()[12] =~= seq!['g', 'u']);
            assert(syllabary_spec()[12] == rename_token(raw_syllabary()[12]));
            assert(raw_syllabary()[12] != "si"@) by {
                assert(tok_code(seq!['g', 'u']) != tok_code("si"@));
            }
            assert(raw_syllabary()[12] != "ti"@) by {
                assert(tok_code(seq!['g', 'u']) != tok_code("ti"@));
            }
            assert(raw_syllabary()[12] != "tu"@) by {
                assert(tok_code(seq!['g', 'u']) != tok_code("tu"@));
            }
            assert(raw_syllabary()[12] != "hu"@) by {
                assert(tok_code(seq!['g', 'u']) != tok_code("hu"@));
            }
            assert(raw_syllabary()[12] != "zi"@) by {
                assert(tok_code(seq!['g', 'u']) != tok_code("zi"@));
            }
            assert(rename_token(raw_syllabary()[12]) == raw_syllabary()[12]);
            assert(syllabary_spec()[12] =~= syllabary_literal()[12]);
        } else if j == 13 {
            crate::conv::lemma_cv_grid_entry(consonant_onsets(), vowels_order(), 1, 3);
            assert(pb[8] == consonant_onsets()[1].push(vowels_order()[3]));
            assert(raw_syllabary()[13] == pb[8]);
            assert(raw_syllabary()[13] =~= seq!['g', 'e']);
            assert(syllabary_spec()[13] == rename_token(raw_syllabary()[13]));
            assert(raw_syllabary()[13] != "si"@) by {
                assert(tok_code(seq!['g', 'e']) != tok_code("si"@));
            }
            assert(raw_syllabary()[13] != "ti"@) by {
                assert(tok_code(seq!['g', 'e']) != tok_code("ti"@));
            }
            assert(raw_syllabary()[13] != "tu"@) by {
                assert(tok_code(seq!['g', 'e']) != tok_code("tu"@));
            }
            assert(raw_syllabary()[13] != "hu"@) by {
                assert(tok_code(seq!['g', 'e']) != tok_code("hu"@));
            }
            assert(raw_syllabary()[13] != "zi"@) by {
                assert(tok_code(seq!['g', 'e']) != tok_code("zi"@));
            }
            assert(rename_token(raw_syllabary()[13]) == raw_syllabary()[13]);
            assert(syllabary_spec()[13] =~= syllabary_literal()[13]);
        } else if j == 14 {
            crate::conv::lemma_cv_grid_entry(consonant_onsets(), vowels_order(), 1, 4);
            assert(pb[9] == consonant_onsets()[1].push(vowels_order()[4]));
            assert(raw_syllabary()[14] == pb[9]);
            assert(raw_syllabary()[14] =~= seq!['g', 'o']);
            assert(syllabary_spec()[14] == rename_token(raw_syllabary()[14]));
            assert(raw_syllabary()[14] != "si"@) by {
                assert(tok_code(seq!['g', 'o']) != tok_code("si"@));
            }
            assert(raw_syllabary()[14] != "ti"@) by {
                assert(tok_code(seq!['g', 'o']) != tok_code("ti"@));
            }
            assert(raw_syllabary()[14] != "tu"@) by {
                assert(tok_code(seq!['g', 'o']) != tok_code("tu"@));
            }
            assert(raw_syllabary()[14] != "hu"@) by {
                assert(tok_code(seq!['g', 'o']) != tok_code("hu"@));
            }
            assert(raw_syllabary()[14] != "zi"@) by {
                assert(tok_code(seq!['g', 'o']) != tok_code("zi"@));
            }
            assert(rename_token(raw_syllabary()[14]) == raw_syllabary()[14]);
            assert(syllabary_spec()[14] =~= syllabary_literal()[14]);
        } else if j == 15 {
            crate::conv::lemma_cv_grid_entry(consonant_onsets(), vowels_order(), 2, 0);
            assert(pb[10] == consonant_onsets()[2].push(vowels_order()[0]));
            assert(raw_syllabary()[15] == pb[10]);
            assert(raw_syllabary()[15] =~= seq!['s', 'a']);
            assert(syllabary_spec()[15] == rename_token(raw_syllabary()[15]));
            assert(raw_syllabary()[15] != "si"@) by {
                assert(tok_code(seq!['s', 'a']) != tok_code("si"@));
            }
            assert(raw_syllabary()[15] != "ti"@) by {
                assert(tok_code(seq!['s', 'a']) != tok_code("ti"@));
            }
            assert(raw_syllabary()[15] != "tu"@) by {
                assert(tok_code(seq!['s', 'a']) != tok_code("tu"@));
            }
            assert(raw_syllabary()[15] != "hu"@) by {
                assert(tok_code(seq!['s', 'a']) != tok_code("hu"@));
            }
            assert(raw_syllabary()[15] != "zi"@) by {
                assert(tok_code(seq!['s', 'a']) != tok_code("zi"@));
            }
            assert(rename_token(raw_syllabary()[15]) == raw_syllabary()[15]);
            assert(syllabary_spec()[15] =~= syllabary_literal()[15]);
        } else if j == 16 {
            crate::conv::lemma_cv_grid_entry(consonant_onsets(), vowels_order(), 2, 1);
            assert(pb[11] == consonant_onsets()[2].push(vowels_order()[1]));
            assert(raw_syllabary()[16] == pb[11]);
            assert(raw_syllabary()[16] =~= seq!['s', 'i']);
            assert(syllabary_spec()[16] == rename_token(raw_syllabary()[16]));
            assert(raw_syllabary()[16] == "si"@);
            assert(rename_token(raw_syllabary()[16]) == "shi"@);
            assert(syllabary_spec()[16] =~= syllabary_literal()[16]);
        } else if j == 17 {
            crate::conv::lemma_cv_grid_entry(consonant_onsets(), vowels_order(), 2, 2);
            assert(pb[12] == consonant_onsets()[2].push(vowels_order()[2]));
            assert(raw_syllabary()[17] == pb[12]);
            assert(raw_syllabary()[17] =~= seq!['s', 'u']);
            assert(syllabary_spec()[17] == rename_token(raw_syllabary()[17]));
            assert(raw_syllabary()[17] != "si"@) by {
                assert(tok_code(seq!['s', 'u']) != tok_code("si"@));
            }
            assert(raw_syllabary()[17] != "ti"@) by {
                assert(tok_code(seq!['s', 'u']) != tok_code("ti"@));
            }
            assert(raw_syllabary()[17] != "tu"@) by {
                assert(tok_code(seq!['s', 'u']) != tok_code("tu"@));
            }
            assert(raw_syllabary()[17] != "hu"@) by {
                assert(tok_code(seq!['s', 'u']) != tok_code("hu"@));
            }
            assert(raw_syllabary()[17] != "zi"@) by {
                assert(tok_code(seq!['s', 'u']) != tok_code("zi"@));
            }
            assert(rename_token(raw_syllabary()[17]) == raw_syllabary()[17]);
            assert(syllabary_spec()[17] =~= syllabary_literal()[17]);
        } else if j == 18 {
            crate::conv::lemma_cv_grid_entry(consonant_onsets(), vowels_order(), 2, 3);
            assert(pb[13] == consonant_onsets()[2].push(vowels_order()[3]));
            assert(raw_syllabary()[18] == pb[13]);
            assert(raw_syllabary()[18] =~= seq!['s', 'e']);
            assert(syllabary_spec()[18] == rename_token(raw_syllabary()[18]));
            assert(raw_syllabary()[18] != "si"@) by {
                assert(tok_code(seq!['s', 'e']) != tok_code("si"@));
            }
            assert(raw_syllabary()[18] != "ti"@) by {
                assert(tok_code(seq!['s', 'e']) != tok_code("ti"@));
            }
            assert(raw_syllabary()[18] != "tu"@) by {
                assert(tok_code(seq!['s', 'e']) != tok_code("tu"@));
            }
            assert(raw_syllabary()[18] != "hu"@) by {
                assert(tok_code(seq!['s', 'e']) != tok_code("hu"@));
            }
            assert(raw_syllabary()[18] != "zi"@) by {
                assert(tok_code(seq!['s', 'e']) != tok_code("zi"@));
            }
            assert(rename_token(raw_syllabary()[18]) == raw_syllabary()[18]);
            assert(syllabary_spec()[18] =~= syllabary_literal()[18]);
        } else if j == 19 {
            crate::conv::lemma_cv_grid_entry(consonant_onsets(), vowels_order(), 2, 4);
            assert(pb[14] == consonant_onsets()[2].push(vowels_order()[4]));
            assert(raw_syllabary()[19] == pb[14]);
            assert(raw_syllabary()[19] =~= seq!['s', 'o']);
            assert(syllabary_spec()[19] == rename_token(raw_syllabary()[19]));
            assert(raw_syllabary()[19] != "si"@) by {
                assert(tok_code(seq!['s', 'o']) != tok_code("si"@));
            }
            assert(raw_syllabary()[19] != "ti"@) by {
                assert(tok_code(seq!['s', 'o']) != tok_code("ti"@));
            }
            assert(raw_syllabary()[19] != "tu"@) by {
                assert(tok_code(seq!['s', 'o']) != tok_code("tu"@));
            }
            assert(raw_syllabary()[19] != "hu"@) by {
                assert(tok_code(seq!['s', 'o']) != tok_code("hu"@));
            }
            assert(raw_syllabary()[19] != "zi"@) by {
                assert(tok_code(seq!['s', 'o']) != tok_code("zi"@));
            }
            assert(rename_token(raw_syllabary()[19]) == raw_syllabary()[19]);
            assert(syllabary_spec()[19] =~= syllabary_literal()[19]);
        } else {
        }
    }
}

proof fn syllabary_literal_part_20_30()
    ensures
        forall|j: int| 20 <= j < 30 ==> syllabary_spec()[j] == syllabary_literal()[j],
{
    reveal_strlit("si");
    reveal_strlit("shi");
    reveal_strlit("ti");
    reveal_strlit("chi");
    reveal_strlit("tu");
    reveal_strlit("tsu");
    reveal_strlit("hu");
    reveal_strlit("fu");
    reveal_strlit("zi");
    reveal_strlit("ji");
    lemma_syllabary_len();
    lemma_cv_row_len(Seq::<char>::empty(), vowels_order());
    lemma_cv_grid_len(consonant_onsets(), vowels_order());
    lemma_cv_grid_len(digraph_onsets(), digraph_vowels_order());
    assert forall|j: int| 20 <= j < 30 implies syllabary_spec()[j] == syllabary_literal()[j] by {
        let pa = cv_row(Seq::<char>::empty(), vowels_order());
        let pb = cv_grid(consonant_onsets(), vowels_order());
        let pc = cv_grid(digraph_onsets(), digraph_vowels_order());
        let pd = seq!["n"@, "G"@, "je"@];
        assert(pa.len() == 5);
        assert(consonant_onsets().len() == 14 && vowels_order().len() == 5);
        assert(pb.len() == 14 * 5);
        assert(digraph_onsets().len() == 11 && digraph_vowels_order().len() == 3);
        assert(pc.len() == 11 * 3);
        assert(raw_syllabary() == pa + pb + pc + pd);
        if j == 20 {
            crate::conv::lemma_cv_grid_entry(consonant_onsets(), vowels_order(), 3, 0);
            assert(pb[15] == consonant_onsets()[3].push(vowels_order()[0]));
            assert(raw_syllabary()[20] == pb[15]);
            assert(raw_syllabary()[20] =~= seq!['z', 'a']);
            assert(syllabary_spec()[20] == rename_token(raw_syllabary()[20]));
            assert(raw_syllabary()[20] != "si"@) by {
                assert(tok_code(seq!['z', 'a']) != tok_code("si"@));
            }
            assert(raw_syllabary()[20] != "ti"@) by {
                assert(tok_code(seq!['z', 'a']) != tok_code("ti"@));
            }
            assert(raw_syllabary()[20] != "tu"@) by {
                assert(tok_code(seq!['z', 'a']) != tok_code("tu"@));
            }
            assert(raw_syllabary()[20] != "hu"@) by {
                assert(tok_code(seq!['z', 'a']) != tok_code("hu"@));
            }
            assert(raw_syllabary()[20] != "zi"@) by {
                assert(tok_code(seq!['z', 'a']) != tok_code("zi"@));
            }
            assert(rename_token(raw_syllabary()[20]) == raw_syllabary()[20]);
            assert(syllabary_spec()[20] =~= syllabary_literal()[20]);
        } else if j == 21 {
            crate::conv::lemma_cv_grid_entry(consonant_onsets(), vowels_order(), 3, 1);
            assert(pb[16] == consonant_onsets()[3].push(vowels_order()[1]));
            assert(raw_syllabary()[21] == pb[16]);
            assert(raw_syllabary()[21] =~= seq!['z', 'i']);
            assert(syllabary_spec()[21] == rename_token(raw_syllabary()[21]));
            assert(raw_syllabary()[21] == "zi"@);
            assert(rename_token(raw_syllabary()[21]) == "ji"@);
            assert(syllabary_spec()[21] =~= syllabary_literal()[21]);
        } else if j == 22 {
            crate::conv::lemma_cv_grid_entry(consonant_onsets(), vowels_order(), 3, 2);
            assert(pb[17] == consonant_onsets()[3].push(vowels_order()[2]));
            assert(raw_syllabary()[22] == pb[17]);
            assert(raw_syllabary()[22] =~= seq!['z', 'u']);
            assert(syllabary_spec()[22] == rename_token(raw_syllabary()[22]));
            assert(raw_syllabary()[22] != "si"@) by {
                assert(tok_code(seq!['z', 'u']) != tok_code("si"@));
            }
            assert(raw_syllabary()[22] != "ti"@) by {
                assert(tok_code(seq!['z', 'u']) != tok_code("ti"@));
            }
            assert(raw_syllabary()[22] != "tu"@) by {
                assert(tok_code(seq!['z', 'u']) != tok_code("tu"@));
            }
            assert(raw_syllabary()[22] != "hu"@) by {
                assert(tok_code(seq!['z', 'u']) != tok_code("hu"@));
            }
            assert(raw_syllabary()[22] != "zi"@) by {
                assert(tok_code(seq!['z', 'u']) != tok_code("zi"@));
            }
            assert(rename_token(raw_syllabary()[22]) == raw_syllabary()[22]);
            assert(syllabary_spec()[22] =~= syllabary_literal()[22]);
        } else if j == 23 {
            crate::conv::lemma_cv_grid_entry(consonant_onsets(), vowels_order(), 3, 3);
            assert(pb[18] == consonant_onsets()[3].push(vowels_order()[3]));
            assert(raw_syllabary()[23] == pb[18]);
            assert(raw_syllabary()[23] =~= seq!['z', 'e']);
            assert(syllabary_spec()[23] == rename_token(raw_syllabary()[23]));
            assert(raw_syllabary()[23] != "si"@) by {
                assert(tok_code(seq!['z', 'e']) != tok_code("si"@));
            }
            assert(raw_syllabary()[23] != "ti"@) by {
                assert(tok_code(seq!['z', 'e']) != tok_code("ti"@));
            }
            assert(raw_syllabary()[23] != "tu"@) by {
                assert(tok_code(seq!['z', 'e']) != tok_code("tu"@));
            }
            assert(raw_syllabary()[23] != "hu"@) by {
                assert(tok_code(seq!['z', 'e']) != tok_code("hu"@));
            }
            assert(raw_syllabary()[23] != "zi"@) by {
                assert(tok_code(seq!['z', 'e']) != tok_code("zi"@));
            }
            assert(rename_token(raw_syllabary()[23]) == raw_syllabary()[23]);
            assert(syllabary_spec()[23] =~= syllabary_literal()[23]);
        } else if j == 24 {
            crate::conv::lemma_cv_grid_entry(consonant_onsets(), vowels_order(), 3, 4);
            assert(pb[19] == consonant_onsets()[3].push(vowels_order()[4]));
            assert(raw_syllabary()[24] == pb[19]);
            assert(raw_syllabary()[24] =~= seq!['z', 'o']);
            assert(syllabary_spec()[24] == rename_token(raw_syllabary()[24]));
            assert(raw_syllabary()[24] != "si"@) by {
                assert(tok_code(seq!['z', 'o']) != tok_code("si"@));
            }
            assert(raw_syllabary()[24] != "ti"@) by {
                assert(tok_code(seq!['z', 'o']) != tok_code("ti"@));
            }
            assert(raw_syllabary()[24] != "tu"@) by {
                assert(tok_code(seq!['z', 'o']) != tok_code("tu"@));
            }
            assert(raw_syllabary()[24] != "hu"@) by {
                assert(tok_code(seq!['z', 'o']) != tok_code("hu"@));
            }
            assert(raw_syllabary()[24] != "zi"@) by {
                assert(tok_code(seq!['z', 'o']) != tok_code("zi"@));
            }
            assert(rename_token(raw_syllabary()[24]) == raw_syllabary()[24]);
            assert(syllabary_spec()[24] =~= syllabary_literal()[24]);
        } else if j == 25 {
            crate::conv::lemma_cv_grid_entry(consonant_onsets(), vowels_order(), 4, 0);
            assert(pb[20] == consonant_onsets()[4].push(vowels_order()[0]));
            assert(raw_syllabary()[25] == pb[20]);
            assert(raw_syllabary()[25] =~= seq!['t', 'a']);
            assert(syllabary_spec()[25] == rename_token(raw_syllabary()[25]));
            assert(raw_syllabary()[25] != "si"@) by {
                assert(tok_code(seq!['t', 'a']) != tok_code("si"@));
            }
            assert(raw_syllabary()[25] != "ti"@) by {
                assert(tok_code(seq!['t', 'a']) != tok_code("ti"@));
            }
            assert(raw_syllabary()[25] != "tu"@) by {
                assert(tok_code(seq!['t', 'a']) != tok_code("tu"@));
            }
            assert(raw_syllabary()[25] != "hu"@) by {
                assert(tok_code(seq!['t', 'a']) != tok_code("hu"@));
            }
            assert(raw_syllabary()[25] != "zi"@) by {
                assert(tok_code(seq!['t', 'a']) != tok_code("zi"@));
            }
            assert(rename_token(raw_syllabary()[25]) == raw_syllabary()[25]);
            assert(syllabary_spec()[25] =~= syllabary_literal()[25]);
        } else if j == 26 {
            crate::conv::lemma_cv_grid_entry(consonant_onsets(), vowels_order(), 4, 1);
            assert(pb[21] == consonant_onsets()[4].push(vowels_order()[1]));
            assert(raw_syllabary()[26] == pb[21]);
            assert(raw_syllabary()[26] =~= seq!['t', 'i']);
            assert(syllabary_spec()[26] == rename_token(raw_syllabary()[26]));
            assert(raw_syllabary()[26] == "ti"@);
            assert(rename_token(raw_syllabary()[26]) == "chi"@);
            assert(syllabary_spec()[26] =~= syllabary_literal()[26]);
        } else if j == 27 {
            crate::conv::lemma_cv_grid_entry(consonant_onsets(), vowels_order(), 4, 2);
            assert(pb[22] == consonant_onsets()[4].push(vowels_order()[2]));
            assert(raw_syllabary()[27] == pb[22]);
            assert(raw_syllabary()[27] =~= seq!['t', 'u']);
            assert(syllabary_spec()[27] == rename_token(raw_syllabary()[27]));
            assert(raw_syllabary()[27] == "tu"@);
            assert(rename_token(raw_syllabary()[27]) == "tsu"@);
            assert(syllabary_spec()[27] =~= syllabary_literal()[27]);
        } else if j == 28 {
            crate::conv::lemma_cv_grid_entry(consonant_onsets(), vowels_order(), 4, 3);
            assert(pb[23] == consonant_onsets()[4].push(vowels_order()[3]));
            assert(raw_syllabary()[28] == pb[23]);
            assert(raw_syllabary()[28] =~= seq!['t', 'e']);
            assert(syllabary_spec()[28] == rename_token(raw_syllabary()[28]));
            assert(raw_syllabary()[28] != "si"@) by {
                assert(tok_code(seq!['t', 'e']) != tok_code("si"@));
            }
            assert(raw_syllabary()[28] != "ti"@) by {
                assert(tok_code(seq!['t', 'e']) != tok_code("ti"@));
            }
            assert(raw_syllabary()[28] != "tu"@) by {
                assert(tok_code(seq!['t', 'e']) != tok_code("tu"@));
            }
            assert(raw_syllabary()[28] != "hu"@) by {
                assert(tok_code(seq!['t', 'e']) != tok_code("hu"@));
            }
            assert(raw_syllabary()[28] != "zi"@) by {
                assert(tok_code(seq!['t', 'e']) != tok_code("zi"@));
            }
            assert(rename_token(raw_syllabary()[28]) == raw_syllabary()[28]);
            assert(syllabary_spec()[28] =~= syllabary_literal()[28]);
        } else if j == 29 {
            crate::conv::lemma_cv_grid_entry(consonant_onsets(), vowels_order(), 4, 4);
            assert(pb[24] == consonant_onsets()[4].push(vowels_order()[4]));
            assert(raw_syllabary()[29] == pb[24]);
            assert(raw_syllabary()[29] =~= seq!['t', 'o']);
            assert(syllabary_spec()[29] == rename_token(raw_syllabary()[29]));
            assert(raw_syllabary()[29] != "si"@) by {
                assert(tok_code(seq!['t', 'o']) != tok_code("si"@));
            }
            assert(raw_syllabary()[29] != "ti"@) by {
                assert(tok_code(seq!['t', 'o']) != tok_code("ti"@));
            }
            assert(raw_syllabary()[29] != "tu"@) by {
                assert(tok_code(seq!['t', 'o']) != tok_code("tu"@));
            }
            assert(raw_syllabary()[29] != "hu"@) by {
                assert(tok_code(seq!['t', 'o']) != tok_code("hu"@));
            }
            assert(raw_syllabary()[29] != "zi"@) by {
                assert(tok_code(seq!['t', 'o']) != tok_code("zi"@));
            }
            assert(rename_token(raw_syllabary()[29]) == raw_syllabary()[29]);
            assert(syllabary_spec()[29] =~= syllabary_literal()[29]);
        } else {
        }
    }
}

proof fn syllabary_literal_part_30_40()
    ensures
        forall|j: int| 30 <= j < 40 ==> syllabary_spec()[j] == syllabary_literal()[j],
{
    reveal_strlit("si");
    reveal_strlit("shi");
    reveal_strlit("ti");
    reveal_strlit("chi");
    reveal_strlit("tu");
    reveal_strlit("tsu");
    reveal_strlit("hu");
    reveal_strlit("fu");
    reveal_strlit("zi");
    reveal_strlit("ji");
    lemma_syllabary_len();
    lemma_cv_row_len(Seq::<char>::empty(), vowels_order());
    lemma_cv_grid_len(consonant_onsets(), vowels_order());
    lemma_cv_grid_len(digraph_onsets(), digraph_vowels_order());
    assert forall|j: int| 30 <= j < 40 implies syllabary_spec()[j] == syllabary_literal()[j] by {
        let pa = cv_row(Seq::<char>::empty(), vowels_order());
        let pb = cv_grid(consonant_onsets(), vowels_order());
        let pc = cv_grid(digraph_onsets(), digraph_vowels_order());
        let pd = seq!["n"@, "G"@, "je"@];
        assert(pa.len() == 5);
        assert(consonant_onsets().len() == 14 && vowels_order().len() == 5);
        assert(pb.len() == 14 * 5);
        assert(digraph_onsets().len() == 11 && digraph_vowels_order().len() == 3);
        assert(pc.len() == 11 * 3);
        assert(raw_syllabary() == pa + pb + pc + pd);
        if j == 30 {
            crate::conv::lemma_cv_grid_entry(consonant_onsets(), vowels_order(), 5, 0);
            assert(pb[25] == consonant_onsets()[5].push(vowels_order()[0]));
            assert(raw_syllabary()[30] == pb[25]);
            assert(raw_syllabary()[30] =~= seq!['d', 'a']);
            assert(syllabary_spec()[30] == rename_token(raw_syllabary()[30]));
            assert(raw_syllabary()[30] != "si"@) by {
                assert(tok_code(seq!['d', 'a']) != tok_code("si"@));
            }
            assert(raw_syllabary()[30] != "ti"@) by {
                assert(tok_code(seq!['d', 'a']) != tok_code("ti"@));
            }
            assert(raw_syllabary()[30] != "tu"@) by {
                assert(tok_code(seq!['d', 'a']) != tok_code("tu"@));
            }
            assert(raw_syllabary()[30] != "hu"@) by {
                assert(tok_code(seq!['d', 'a']) != tok_code("hu"@));
            }
            assert(raw_syllabary()[30] != "zi"@) by {
                assert(tok_code(seq!['d', 'a']) != tok_code("zi"@));
            }
            assert(rename_token(raw_syllabary()[30]) == raw_syllabary()[30]);
            assert(syllabary_spec()[30] =~= syllabary_literal()[30]);
        } else if j == 31 {
            crate::conv::lemma_cv_grid_entry(consonant_onsets(), vowels_order(), 5, 1);
            assert(pb[26] == consonant_onsets()[5].push(vowels_order()[1]));
            assert(raw_syllabary()[31] == pb[26]);
            assert(raw_syllabary()[31] =~= seq!['d', 'i']);
            assert(syllabary_spec()[31] == rename_token(raw_syllabary()[31]));
            assert(raw_syllabary()[31] != "si"@) by {
                assert(tok_code(seq!['d', 'i']) != tok_code("si"@));
            }
            assert(raw_syllabary()[31] != "ti"@) by {
                assert(tok_code(seq!['d', 'i']) != tok_code("ti"@));
            }
            assert(raw_syllabary()[31] != "tu"@) by {
                assert(tok_code(seq!['d', 'i']) != tok_code("tu"@));
            }
            assert(raw_syllabary()[31] != "hu"@) by {
                assert(tok_code(seq!['d', 'i']) != tok_code("hu"@));
            }
            assert(raw_syllabary()[31] != "zi"@) by {
                assert(tok_code(seq!['d', 'i']) != tok_code("zi"@));
            }
            assert(rename_token(raw_syllabary()[31]) == raw_syllabary()[31]);
            assert(syllabary_spec()[31] =~= syllabary_literal()[31]);
        } else if j == 32 {
            crate::conv::lemma_cv_grid_entry(consonant_onsets(), vowels_order(), 5, 2);
            assert(pb[27] == consonant_onsets()[5].push(vowels_order()[2]));
            assert(raw_syllabary()[32] == pb[27]);
            assert(raw_syllabary()[32] =~= seq!['d', 'u']);
            assert(syllabary_spec()[32] == rename_token(raw_syllabary()[32]));
            assert(raw_syllabary()[32] != "si"@) by {
                assert(tok_code(seq!['d', 'u']) != tok_code("si"@));
            }
            assert(raw_syllabary()[32] != "ti"@) by {
                assert(tok_code(seq!['d', 'u']) != tok_code("ti"@));
            }
            assert(raw_syllabary()[32] != "tu"@) by {
                assert(tok_code(seq!['d', 'u']) != tok_code("tu"@));
            }
            assert(raw_syllabary()[32] != "hu"@) by {
                assert(tok_code(seq!['d', 'u']) != tok_code("hu"@));
            }
            assert(raw_syllabary()[32] != "zi"@) by {
                assert(tok_code(seq!['d', 'u']) != tok_code("zi"@));
            }
            assert(rename_token(raw_syllabary()[32]) == raw_syllabary()[32]);
            assert(syllabary_spec()[32] =~= syllabary_literal()[32]);
        } else if j == 33 {
            crate::conv::lemma_cv_grid_entry(consonant_onsets(), vowels_order(), 5, 3);
            assert(pb[28] == consonant_onsets()[5].push(vowels_order()[3]));
            assert(raw_syllabary()[33] == pb[28]);
            assert(raw_syllabary()[33] =~= seq!['d', 'e']);
            assert(syllabary_spec()[33] == rename_token(raw_syllabary()[33]));
            assert(raw_syllabary()[33] != "si"@) by {
                assert(tok_code(seq!['d', 'e']) != tok_code("si"@));
            }
            assert(raw_syllabary()[33] != "ti"@) by {
                assert(tok_code(seq!['d', 'e']) != tok_code("ti"@));
            }
            assert(raw_syllabary()[33] != "tu"@) by {
                assert(tok_code(seq!['d', 'e']) != tok_code("tu"@));
            }
            assert(raw_syllabary()[33] != "hu"@) by {
                assert(tok_code(seq!['d', 'e']) != tok_code("hu"@));
            }
            assert(raw_syllabary()[33] != "zi"@) by {
                assert(tok_code(seq!['d', 'e']) != tok_code("zi"@));
            }
            assert(rename_token(raw_syllabary()[33]) == raw_syllabary()[33]);
            assert(syllabary_spec()[33] =~= syllabary_literal()[33]);
        } else if j == 34 {
            crate::conv::lemma_cv_grid_entry(consonant_onsets(), vowels_order(), 5, 4);
            assert(pb[29] == consonant_onsets()[5].push(vowels_order()[4]));
            assert(raw_syllabary()[34] == pb[29]);
            assert(raw_syllabary()[34] =~= seq!['d', 'o']);
            assert(syllabary_spec()[34] == rename_token(raw_syllabary()[34]));
            assert(raw_syllabary()[34] != "si"@) by {
                assert(tok_code(seq!['d', 'o']) != tok_code("si"@));
            }
            assert(raw_syllabary()[34] != "ti"@) by {
                assert(tok_code(seq!['d', 'o']) != tok_code("ti"@));
            }
            assert(raw_syllabary()[34] != "tu"@) by {
                assert(tok_code(seq!['d', 'o']) != tok_code("tu"@));
            }
            assert(raw_syllabary()[34] != "hu"@) by {
                assert(tok_code(seq!['d', 'o']) != tok_code("hu"@));
            }
            assert(raw_syllabary()[34] != "zi"@) by {
                assert(tok_code(seq!['d', 'o']) != tok_code("zi"@));
            }
            assert(rename_token(raw_syllabary()[34]) == raw_syllabary()[34]);
            assert(syllabary_spec()[34] =~= syllabary_literal()[34]);
        } else if j == 35 {
            crate::conv::lemma_cv_grid_entry(consonant_onsets(), vowels_order(), 6, 0);
            assert(pb[30] == consonant_onsets()[6].push(vowels_order()[0]));
            assert(raw_syllabary()[35] == pb[30]);
            assert(raw_syllabary()[35] =~= seq!['n', 'a']);
            assert(syllabary_spec()[35] == rename_token(raw_syllabary()[35]));
            assert(raw_syllabary()[35] != "si"@) by {
                assert(tok_code(seq!['n', 'a']) != tok_code("si"@));
            }
            assert(raw_syllabary()[35] != "ti"@) by {
                assert(tok_code(seq!['n', 'a']) != tok_code("ti"@));
            }
            assert(raw_syllabary()[35] != "tu"@) by {
                assert(tok_code(seq!['n', 'a']) != tok_code("tu"@));
            }
            assert(raw_syllabary()[35] != "hu"@) by {
                assert(tok_code(seq!['n', 'a']) != tok_code("hu"@));
            }
            assert(raw_syllabary()[35] != "zi"@) by {
                assert(tok_code(seq!['n', 'a']) != tok_code("zi"@));
            }
            assert(rename_token(raw_syllabary()[35]) == raw_syllabary()[35]);
            assert(syllabary_spec()[35] =~= syllabary_literal()[35]);
        } else if j == 36 {
            crate::conv::lemma_cv_grid_entry(consonant_onsets(), vowels_order(), 6, 1);
            assert(pb[31] == consonant_onsets()[6].push(vowels_order()[1]));
            assert(raw_syllabary()[36] == pb[31]);
            assert(raw_syllabary()[36] =~= seq!['n', 'i']);
            assert(syllabary_spec()[36] == rename_token(raw_syllabary()[36]));
            assert(raw_syllabary()[36] != "si"@) by {
                assert(tok_code(seq!['n', 'i']) != tok_code("si"@));
            }
            assert(raw_syllabary()[36] != "ti"@) by {
                assert(tok_code(seq!['n', 'i']) != tok_code("ti"@));
            }
            assert(raw_syllabary()[36] != "tu"@) by {
                assert(tok_code(seq!['n', 'i']) != tok_code("tu"@));
            }
            assert(raw_syllabary()[36] != "hu"@) by {
                assert(tok_code(seq!['n', 'i']) != tok_code("hu"@));
            }
            assert(raw_syllabary()[36] != "zi"@) by {
                assert(tok_code(seq!['n', 'i']) != tok_code("zi"@));
            }
            assert(rename_token(raw_syllabary()[36]) == raw_syllabary()[36]);
            assert(syllabary_spec()[36] =~= syllabary_literal()[36]);
        } else if j == 37 {
            crate::conv::lemma_cv_grid_entry(consonant_onsets(), vowels_order(), 6, 2);
            assert(pb[32] == consonant_onsets()[6].push(vowels_order()[2]));
            assert(raw_syllabary()[37] == pb[32]);
            assert(raw_syllabary()[37] =~= seq!['n', 'u']);
            assert(syllabary_spec()[37] == rename_token(raw_syllabary()[37]));
            assert(raw_syllabary()[37] != "si"@) by {
                assert(tok_code(seq!['n', 'u']) != tok_code("si"@));
            }
            assert(raw_syllabary()[37] != "ti"@) by {
                assert(tok_code(seq!['n', 'u']) != tok_code("ti"@));
            }
            assert(raw_syllabary()[37] != "tu"@) by {
                assert(tok_code(seq!['n', 'u']) != tok_code("tu"@));
            }
            assert(raw_syllabary()[37] != "hu"@) by {
                assert(tok_code(seq!['n', 'u']) != tok_code("hu"@));
            }
            assert(raw_syllabary()[37] != "zi"@) by {
                assert(tok_code(seq!['n', 'u']) != tok_code("zi"@));
            }
            assert(rename_token(raw_syllabary()[37]) == raw_syllabary()[37]);
            assert(syllabary_spec()[37] =~= syllabary_literal()[37]);
        } else if j == 38 {
            crate::conv::lemma_cv_grid_entry(consonant_onsets(), vowels_order(), 6, 3);
            assert(pb[33] == consonant_onsets()[6].push(vowels_order()[3]));
            assert(raw_syllabary()[38] == pb[33]);
            assert(raw_syllabary()[38] =~= seq!['n', 'e']);
            assert(syllabary_spec()[38] == rename_token(raw_syllabary()[38]));
            assert(raw_syllabary()[38] != "si"@) by {
                assert(tok_code(seq!['n', 'e']) != tok_code("si"@));
            }
            assert(raw_syllabary()[38] != "ti"@) by {
                assert(tok_code(seq!['n', 'e']) != tok_code("ti"@));
            }
            assert(raw_syllabary()[38] != "tu"@) by {
                assert(tok_code(seq!['n', 'e']) != tok_code("tu"@));
            }
            assert(raw_syllabary()[38] != "hu"@) by {
                assert(tok_code(seq!['n', 'e']) != tok_code("hu"@));
            }
            assert(raw_syllabary()[38] != "zi"@) by {
                assert(tok_code(seq!['n', 'e']) != tok_code("zi"@));
            }
            assert(rename_token(raw_syllabary()[38]) == raw_syllabary()[38]);
            assert(syllabary_spec()[38] =~= syllabary_literal()[38]);
        } else if j == 39 {
            crate::conv::lemma_cv_grid_entry(consonant_onsets(), vowels_order(), 6, 4);
            assert(pb[34] == consonant_onsets()[6].push(vowels_order()[4]));
            assert(raw_syllabary()[39] == pb[34]);
            assert(raw_syllabary()[39] =~= seq!['n', 'o']);
            assert(syllabary_spec()[39] == rename_token(raw_syllabary()[39]));
            assert(raw_syllabary()[39] != "si"@) by {
                assert(tok_code(seq!['n', 'o']) != tok_code("si"@));
            }
            assert(raw_syllabary()[39] != "ti"@) by {
                assert(tok_code(seq!['n', 'o']) != tok_code("ti"@));
            }
            assert(raw_syllabary()[39] != "tu"@) by {
                assert(tok_code(seq!['n', 'o']) != tok_code("tu"@));
            }
            assert(raw_syllabary()[39] != "hu"@) by {
                assert(tok_code(seq!['n', 'o']) != tok_code("hu"@));
            }
            assert(raw_syllabary()[39] != "zi"@) by {
                assert(tok_code(seq!['n', 'o']) != tok_code("zi"@));
            }
            assert(rename_token(raw_syllabary()[39]) == raw_syllabary()[39]);
            assert(syllabary_spec()[39] =~= syllabary_literal()[39]);
        } else {
        }
    }
}

proof fn syllabary_literal_part_40_50()
    ensures
        forall|j: int| 40 <= j < 50 ==> syllabary_spec()[j] == syllabary_literal()[j],
{
    reveal_strlit("si");
    reveal_strlit("shi");
    reveal_strlit("ti");
    reveal_strlit("chi");
    reveal_strlit("tu");
    reveal_strlit("tsu");
    reveal_strlit("hu");
    reveal_strlit("fu");
    reveal_strlit("zi");
    reveal_strlit("ji");
    lemma_syllabary_len();
    lemma_cv_row_len(Seq::<char>::empty(), vowels_order());
    lemma_cv_grid_len(consonant_onsets(), vowels_order());
    lemma_cv_grid_len(digraph_onsets(), digraph_vowels_order());
    assert forall|j: int| 40 <= j < 50 implies syllabary_spec()[j] == syllabary_literal()[j] by {
        let pa = cv_row(Seq::<char>::empty(), vowels_order());
        let pb = cv_grid(consonant_onsets(), vowels_order());
        let pc = cv_grid(digraph_onsets(), digraph_vowels_order());
        let pd = seq!["n"@, "G"@, "je"@];
        assert(pa.len() == 5);
        assert(consonant_onsets().len() == 14 && vowels_order().len() == 5);
        assert(pb.len() == 14 * 5);
        assert(digraph_onsets().len() == 11 && digraph_vowels_order().len() == 3);
        assert(pc.len() == 11 * 3);
        assert(raw_syllabary() == pa + pb + pc + pd);
        if j == 40 {
            crate::conv::lemma_cv_grid_entry(consonant_onsets(), vowels_order(), 7, 0);
            assert(pb[35] == consonant_onsets()[7].push(vowels_order()[0]));
            assert(raw_syllabary()[40] == pb[35]);
            assert(raw_syllabary()[40] =~= seq!['h', 'a']);
            assert(syllabary_spec()[40] == rename_token(raw_syllabary()[40]));
            assert(raw_syllabary()[40] != "si"@) by {
                assert(tok_code(seq!['h', 'a']) != tok_code("si"@));
            }
            assert(raw_syllabary()[40] != "ti"@) by {
                assert(tok_code(seq!['h', 'a']) != tok_code("ti"@));
            }
            assert(raw_syllabary()[40] != "tu"@) by {
                assert(tok_code(seq!['h', 'a']) != tok_code("tu"@));
            }
            assert(raw_syllabary()[40] != "hu"@) by {
                assert(tok_code(seq!['h', 'a']) != tok_code("hu"@));
            }
            assert(raw_syllabary()[40] != "zi"@) by {
                assert(tok_code(seq!['h', 'a']) != tok_code("zi"@));
            }
            assert(rename_token(raw_syllabary()[40]) == raw_syllabary()[40]);
            assert(syllabary_spec()[40] =~= syllabary_literal()[40]);
        } else if j == 41 {
            crate::conv::lemma_cv_grid_entry(consonant_onsets(), vowels_order(), 7, 1);
            assert(pb[36] == consonant_onsets()[7].push(vowels_order()[1]));
            assert(raw_syllabary()[41] == pb[36]);
            assert(raw_syllabary()[41] =~= seq!['h', 'i']);
            assert(syllabary_spec()[41] == rename_token(raw_syllabary()[41]));
            assert(raw_syllabary()[41] != "si"@) by {
                assert(tok_code(seq!['h', 'i']) != tok_code("si"@));
            }
            assert(raw_syllabary()[41] != "ti"@) by {
                assert(tok_code(seq!['h', 'i']) != tok_code("ti"@));
            }
            assert(raw_syllabary()[41] != "tu"@) by {
                assert(tok_code(seq!['h', 'i']) != tok_code("tu"@));
            }
            assert(raw_syllabary()[41] != "hu"@) by {
                assert(tok_code(seq!['h', 'i']) != tok_code("hu"@));
            }
            assert(raw_syllabary()[41] != "zi"@) by {
                assert(tok_code(seq!['h', 'i']) != tok_code("zi"@));
            }
            assert(rename_token(raw_syllabary()[41]) == raw_syllabary()[41]);
            assert(syllabary_spec()[41] =~= syllabary_literal()[41]);
        } else if j == 42 {
            crate::conv::lemma_cv_grid_entry(consonant_onsets(), vowels_order(), 7, 2);
            assert(pb[37] == consonant_onsets()[7].push(vowels_order()[2]));
            assert(raw_syllabary()[42] == pb[37]);
            assert(raw_syllabary()[42] =~= seq!['h', 'u']);
            assert(syllabary_spec()[42] == rename_token(raw_syllabary()[42]));
            assert(raw_syllabary()[42] == "hu"@);
            assert(rename_token(raw_syllabary()[42]) == "fu"@);
            assert(syllabary_spec()[42] =~= syllabary_literal()[42]);
        } else if j == 43 {
            crate::conv::lemma_cv_grid_entry(consonant_onsets(), vowels_order(), 7, 3);
            assert(pb[38] == consonant_onsets()[7].push(vowels_order()[3]));
            assert(raw_syllabary()[43] == pb[38]);
            assert(raw_syllabary()[43] =~= seq!['h', 'e']);
            assert(syllabary_spec()[43] == rename_token(raw_syllabary()[43]));
            assert(raw_syllabary()[43] != "si"@) by {
                assert(tok_code(seq!['h', 'e']) != tok_code("si"@));
            }
            assert(raw_syllabary()[43] != "ti"@) by {
                assert(tok_code(seq!['h', 'e']) != tok_code("ti"@));
            }
            assert(raw_syllabary()[43] != "tu"@) by {
                assert(tok_code(seq!['h', 'e']) != tok_code("tu"@));
            }
            assert(raw_syllabary()[43] != "hu"@) by {
                assert(tok_code(seq!['h', 'e']) != tok_code("hu"@));
            }
            assert(raw_syllabary()[43] != "zi"@) by {
                assert(tok_code(seq!['h', 'e']) != tok_code("zi"@));
            }
            assert(rename_token(raw_syllabary()[43]) == raw_syllabary()[43]);
            assert(syllabary_spec()[43] =~= syllabary_literal()[43]);
        } else if j == 44 {
            crate::conv::lemma_cv_grid_entry(consonant_onsets(), vowels_order(), 7, 4);
            assert(pb[39] == consonant_onsets()[7].push(vowels_order()[4]));
            assert(raw_syllabary()[44] == pb[39]);
            assert(raw_syllabary()[44] =~= seq!['h', 'o']);
            assert(syllabary_spec()[44] == rename_token(raw_syllabary()[44]));
            assert(raw_syllabary()[44] != "si"@) by {
                assert(tok_code(seq!['h', 'o']) != tok_code("si"@));
            }
            assert(raw_syllabary()[44] != "ti"@) by {
                assert(tok_code(seq!['h', 'o']) != tok_code("ti"@));
            }
            assert(raw_syllabary()[44] != "tu"@) by {
                assert(tok_code(seq!['h', 'o']) != tok_code("tu"@));
            }
            assert(raw_syllabary()[44] != "hu"@) by {
                assert(tok_code(seq!['h', 'o']) != tok_code("hu"@));
            }
            assert(raw_syllabary()[44] != "zi"@) by {
                assert(tok_code(seq!['h', 'o']) != tok_code("zi"@));
            }
            assert(rename_token(raw_syllabary()[44]) == raw_syllabary()[44]);
            assert(syllabary_spec()[44] =~= syllabary_literal()[44]);
        } else if j == 45 {
            crate::conv::lemma_cv_grid_entry(consonant_onsets(), vowels_order(), 8, 0);
            assert(pb[40] == consonant_onsets()[8].push(vowels_order()[0]));
            assert(raw_syllabary()[45] == pb[40]);
            assert(raw_syllabary()[45] =~= seq!['b', 'a']);
            assert(syllabary_spec()[45] == rename_token(raw_syllabary()[45]));
            assert(raw_syllabary()[45] != "si"@) by {
                assert(tok_code(seq!['b', 'a']) != tok_code("si"@));
            }
            assert(raw_syllabary()[45] != "ti"@) by {
                assert(tok_code(seq!['b', 'a']) != tok_code("ti"@));
            }
            assert(raw_syllabary()[45] != "tu"@) by {
                assert(tok_code(seq!['b', 'a']) != tok_code("tu"@));
            }
            assert(raw_syllabary()[45] != "hu"@) by {
                assert(tok_code(seq!['b', 'a']) != tok_code("hu"@));
            }
            assert(raw_syllabary()[45] != "zi"@) by {
                assert(tok_code(seq!['b', 'a']) != tok_code("zi"@));
            }
            assert(rename_token(raw_syllabary()[45]) == raw_syllabary()[45]);
            assert(syllabary_spec()[45] =~= syllabary_literal()[45]);
        } else if j == 46 {
            crate::conv::lemma_cv_grid_entry(consonant_onsets(), vowels_order(), 8, 1);
            assert(pb[41] == consonant_onsets()[8].push(vowels_order()[1]));
            assert(raw_syllabary()[46] == pb[41]);
            assert(raw_syllabary()[46] =~= seq!['b', 'i']);
            assert(syllabary_spec()[46] == rename_token(raw_syllabary()[46]));
            assert(raw_syllabary()[46] != "si"@) by {
                assert(tok_code(seq!['b', 'i']) != tok_code("si"@));
            }
            assert(raw_syllabary()[46] != "ti"@) by {
                assert(tok_code(seq!['b', 'i']) != tok_code("ti"@));
            }
            assert(raw_syllabary()[46] != "tu"@) by {
                assert(tok_code(seq!['b', 'i']) != tok_code("tu"@));
            }
            assert(raw_syllabary()[46] != "hu"@) by {
                assert(tok_code(seq!['b', 'i']) != tok_code("hu"@));
            }
            assert(raw_syllabary()[46] != "zi"@) by {
                assert(tok_code(seq!['b', 'i']) != tok_code("zi"@));
            }
            assert(rename_token(raw_syllabary()[46]) == raw_syllabary()[46]);
            assert(syllabary_spec()[46] =~= syllabary_literal()[46]);
        } else if j == 47 {
            crate::conv::lemma_cv_grid_entry(consonant_onsets(), vowels_order(), 8, 2);
            assert(pb[42] == consonant_onsets()[8].push(vowels_order()[2]));
            assert(raw_syllabary()[47] == pb[42]);
            assert(raw_syllabary()[47] =~= seq!['b', 'u']);
            assert(syllabary_spec()[47] == rename_token(raw_syllabary()[47]));
            assert(raw_syllabary()[47] != "si"@) by {
                assert(tok_code(seq!['b', 'u']) != tok_code("si"@));
            }
            assert(raw_syllabary()[47] != "ti"@) by {
                assert(tok_code(seq!['b', 'u']) != tok_code("ti"@));
            }
            assert(raw_syllabary()[47] != "tu"@) by {
                assert(tok_code(seq!['b', 'u']) != tok_code("tu"@));
            }
            assert(raw_syllabary()[47] != "hu"@) by {
                assert(tok_code(seq!['b', 'u']) != tok_code("hu"@));
            }
            assert(raw_syllabary()[47] != "zi"@) by {
                assert(tok_code(seq!['b', 'u']) != tok_code("zi"@));
            }
            assert(rename_token(raw_syllabary()[47]) == raw_syllabary()[47]);
            assert(syllabary_spec()[47] =~= syllabary_literal()[47]);
        } else if j == 48 {
            crate::conv::lemma_cv_grid_entry(consonant_onsets(), vowels_order(), 8, 3);
            assert(pb[43] == consonant_onsets()[8].push(vowels_order()[3]));
            assert(raw_syllabary()[48] == pb[43]);
            assert(raw_syllabary()[48] =~= seq!['b', 'e']);
            assert(syllabary_spec()[48] == rename_token(raw_syllabary()[48]));
            assert(raw_syllabary()[48] != "si"@) by {
                assert(tok_code(seq!['b', 'e']) != tok_code("si"@));
            }
            assert(raw_syllabary()[48] != "ti"@) by {
                assert(tok_code(seq!['b', 'e']) != tok_code("ti"@));
            }
            assert(raw_syllabary()[48] != "tu"@) by {
                assert(tok_code(seq!['b', 'e']) != tok_code("tu"@));
            }
            assert(raw_syllabary()[48] != "hu"@) by {
                assert(tok_code(seq!['b', 'e']) != tok_code("hu"@));
            }
            assert(raw_syllabary()[48] != "zi"@) by {
                assert(tok_code(seq!['b', 'e']) != tok_code("zi"@));
            }
            assert(rename_token(raw_syllabary()[48]) == raw_syllabary()[48]);
            assert(syllabary_spec()[48] =~= syllabary_literal()[48]);
        } else if j == 49 {
            crate::conv::lemma_cv_grid_entry(consonant_onsets(), vowels_order(), 8, 4);
            assert(pb[44] == consonant_onsets()[8].push(vowels_order()[4]));
            assert(raw_syllabary()[49] == pb[44]);
            assert(raw_syllabary()[49] =~= seq!['b', 'o']);
            assert(syllabary_spec()[49] == rename_token(raw_syllabary()[49]));
            assert(raw_syllabary()[49] != "si"@) by {
                assert(tok_code(seq!['b', 'o']) != tok_code("si"@));
            }
            assert(raw_syllabary()[49] != "ti"@) by {
                assert(tok_code(seq!['b', 'o']) != tok_code("ti"@));
            }
            assert(raw_syllabary()[49] != "tu"@) by {
                assert(tok_code(seq!['b', 'o']) != tok_code("tu"@));
            }
            assert(raw_syllabary()[49] != "hu"@) by {
                assert(tok_code(seq!['b', 'o']) != tok_code("hu"@));
            }
            assert(raw_syllabary()[49] != "zi"@) by {
                assert(tok_code(seq!['b', 'o']) != tok_code("zi"@));
            }
            assert(rename_token(raw_syllabary()[49]) == raw_syllabary()[49]);
            assert(syllabary_spec()[49] =~= syllabary_literal()[49]);
        } else {
        }
    }
}

proof fn syllabary_literal_part_50_60()
    ensures
        forall|j: int| 50 <= j < 60 ==> syllabary_spec()[j] == syllabary_literal()[j],
{
    reveal_strlit("si");
    reveal_strlit("shi");
    reveal_strlit("ti");
    reveal_strlit("chi");
    reveal_strlit("tu");
    reveal_strlit("tsu");
    reveal_strlit("hu");
    reveal_strlit("fu");
    reveal_strlit("zi");
    reveal_strlit("ji");
    lemma_syllabary_len();
    lemma_cv_row_len(Seq::<char>::empty(), vowels_order());
    lemma_cv_grid_len(consonant_onsets(), vowels_order());
    lemma_cv_grid_len(digraph_onsets(), digraph_vowels_order());
    assert forall|j: int| 50 <= j < 60 implies syllabary_spec()[j] == syllabary_literal()[j] by {
        let pa = cv_row(Seq::<char>::empty(), vowels_order());
        let pb = cv_grid(consonant_onsets(), vowels_order());
        let pc = cv_grid(digraph_onsets(), digraph_vowels_order());
        let pd = seq!["n"@, "G"@, "je"@];
        assert(pa.len() == 5);
        assert(consonant_onsets().len() == 14 && vowels_order().len() == 5);
        assert(pb.len() == 14 * 5);
        assert(digraph_onsets().len() == 11 && digraph_vowels_order().len() == 3);
        assert(pc.len() == 11 * 3);
        assert(raw_syllabary() == pa + pb + pc + pd);
        if j == 50 {
            crate::conv::lemma_cv_grid_entry(consonant_onsets(), vowels_order(), 9, 0);
            assert(pb[45] == consonant_onsets()[9].push(vowels_order()[0]));
            assert(raw_syllabary()[50] == pb[45]);
            assert(raw_syllabary()[50] =~= seq!['p', 'a']);
            assert(syllabary_spec()[50] == rename_token(raw_syllabary()[50]));
            assert(raw_syllabary()[50] != "si"@) by {
                assert(tok_code(seq!['p', 'a']) != tok_code("si"@));
            }
            assert(raw_syllabary()[50] != "ti"@) by {
                assert(tok_code(seq!['p', 'a']) != tok_code("ti"@));
            }
            assert(raw_syllabary()[50] != "tu"@) by {
                assert(tok_code(seq!['p', 'a']) != tok_code("tu"@));
            }
            assert(raw_syllabary()[50] != "hu"@) by {
                assert(tok_code(seq!['p', 'a']) != tok_code("hu"@));
            }
            assert(raw_syllabary()[50] != "zi"@) by {
                assert(tok_code(seq!['p', 'a']) != tok_code("zi"@));
            }
            assert(rename_token(raw_syllabary()[50]) == raw_syllabary()[50]);
            assert(syllabary_spec()[50] =~= syllabary_literal()[50]);
        } else if j == 51 {
            crate::conv::lemma_cv_grid_entry(consonant_onsets(), vowels_order(), 9, 1);
            assert(pb[46] == consonant_onsets()[9].push(vowels_order()[1]));
            assert(raw_syllabary()[51] == pb[46]);
            assert(raw_syllabary()[51] =~= seq!['p', 'i']);
            assert(syllabary_spec()[51] == rename_token(raw_syllabary()[51]));
            assert(raw_syllabary()[51] != "si"@) by {
                assert(tok_code(seq!['p', 'i']) != tok_code("si"@));
            }
            assert(raw_syllabary()[51] != "ti"@) by {
                assert(tok_code(seq!['p', 'i']) != tok_code("ti"@));
            }
            assert(raw_syllabary()[51] != "tu"@) by {
                assert(tok_code(seq!['p', 'i']) != tok_code("tu"@));
            }
            assert(raw_syllabary()[51] != "hu"@) by {
                assert(tok_code(seq!['p', 'i']) != tok_code("hu"@));
            }
            assert(raw_syllabary()[51] != "zi"@) by {
                assert(tok_code(seq!['p', 'i']) != tok_code("zi"@));
            }
            assert(rename_token(raw_syllabary()[51]) == raw_syllabary()[51]);
            assert(syllabary_spec()[51] =~= syllabary_literal()[51]);
        } else if j == 52 {
            crate::conv::lemma_cv_grid_entry(consonant_onsets(), vowels_order(), 9, 2);
            assert(pb[47] == consonant_onsets()[9].push(vowels_order()[2]));
            assert(raw_syllabary()[52] == pb[47]);
            assert(raw_syllabary()[52] =~= seq!['p', 'u']);
            assert(syllabary_spec()[52] == rename_token(raw_syllabary()[52]));
            assert(raw_syllabary()[52] != "si"@) by {
                assert(tok_code(seq!['p', 'u']) != tok_code("si"@));
            }
            assert(raw_syllabary()[52] != "ti"@) by {
                assert(tok_code(seq!['p', 'u']) != tok_code("ti"@));
            }
            assert(raw_syllabary()[52] != "tu"@) by {
                assert(tok_code(seq!['p', 'u']) != tok_code("tu"@));
            }
            assert(raw_syllabary()[52] != "hu"@) by {
                assert(tok_code(seq!['p', 'u']) != tok_code("hu"@));
            }
            assert(raw_syllabary()[52] != "zi"@) by {
                assert(tok_code(seq!['p', 'u']) != tok_code("zi"@));
            }
            assert(rename_token(raw_syllabary()[52]) == raw_syllabary()[52]);
            assert(syllabary_spec()[52] =~= syllabary_literal()[52]);
        } else if j == 53 {
            crate::conv::lemma_cv_grid_entry(consonant_onsets(), vowels_order(), 9, 3);
            assert(pb[48] == consonant_onsets()[9].push(vowels_order()[3]));
            assert(raw_syllabary()[53] == pb[48]);
            assert(raw_syllabary()[53] =~= seq!['p', 'e']);
            assert(syllabary_spec()[53] == rename_token(raw_syllabary()[53]));
            assert(raw_syllabary()[53] != "si"@) by {
                assert(tok_code(seq!['p', 'e']) != tok_code("si"@));
            }
            assert(raw_syllabary()[53] != "ti"@) by {
                assert(tok_code(seq!['p', 'e']) != tok_code("ti"@));
            }
            assert(raw_syllabary()[53] != "tu"@) by {
                assert(tok_code(seq!['p', 'e']) != tok_code("tu"@));
            }
            assert(raw_syllabary()[53] != "hu"@) by {
                assert(tok_code(seq!['p', 'e']) != tok_code("hu"@));
            }
            assert(raw_syllabary()[53] != "zi"@) by {
                assert(tok_code(seq!['p', 'e']) != tok_code("zi"@));
            }
            assert(rename_token(raw_syllabary()[53]) == raw_syllabary()[53]);
            assert(syllabary_spec()[53] =~= syllabary_literal()[53]);
        } else if j == 54 {
            crate::conv::lemma_cv_grid_entry(consonant_onsets(), vowels_order(), 9, 4);
            assert(pb[49] == consonant_onsets()[9].push(vowels_order()[4]));
            assert(raw_syllabary()[54] == pb[49]);
            assert(raw_syllabary()[54] =~= seq!['p', 'o']);
            assert(syllabary_spec()[54] == rename_token(raw_syllabary()[54]));
            assert(raw_syllabary()[54] != "si"@) by {
                assert(tok_code(seq!['p', 'o']) != tok_code("si"@));
            }
            assert(raw_syllabary()[54] != "ti"@) by {
                assert(tok_code(seq!['p', 'o']) != tok_code("ti"@));
            }
            assert(raw_syllabary()[54] != "tu"@) by {
                assert(tok_code(seq!['p', 'o']) != tok_code("tu"@));
            }
            assert(raw_syllabary()[54] != "hu"@) by {
                assert(tok_code(seq!['p', 'o']) != tok_code("hu"@));
            }
            assert(raw_syllabary()[54] != "zi"@) by {
                assert(tok_code(seq!['p', 'o']) != tok_code("zi"@));
            }
            assert(rename_token(raw_syllabary()[54]) == raw_syllabary()[54]);
            assert(syllabary_spec()[54] =~= syllabary_literal()[54]);
        } else if j == 55 {
            crate::conv::lemma_cv_grid_entry(consonant_onsets(), vowels_order(), 10, 0);
            assert(pb[50] == consonant_onsets()[10].push(vowels_order()[0]));
            assert(raw_syllabary()[55] == pb[50]);
            assert(raw_syllabary()[55] =~= seq!['m', 'a']);
            assert(syllabary_spec()[55] == rename_token(raw_syllabary()[55]));
            assert(raw_syllabary()[55] != "si"@) by {
                assert(tok_code(seq!['m', 'a']) != tok_code("si"@));
            }
            assert(raw_syllabary()[55] != "ti"@) by {
                assert(tok_code(seq!['m', 'a']) != tok_code("ti"@));
            }
            assert(raw_syllabary()[55] != "tu"@) by {
                assert(tok_code(seq!['m', 'a']) != tok_code("tu"@));
            }
            assert(raw_syllabary()[55] != "hu"@) by {
                assert(tok_code(seq!['m', 'a']) != tok_code("hu"@));
            }
            assert(raw_syllabary()[55] != "zi"@) by {
                assert(tok_code(seq!['m', 'a']) != tok_code("zi"@));
            }
            assert(rename_token(raw_syllabary()[55]) == raw_syllabary()[55]);
            assert(syllabary_spec()[55] =~= syllabary_literal()[55]);
        } else if j == 56 {
            crate::conv::lemma_cv_grid_entry(consonant_onsets(), vowels_order(), 10, 1);
            assert(pb[51] == consonant_onsets()[10].push(vowels_order()[1]));
            assert(raw_syllabary()[56] == pb[51]);
            assert(raw_syllabary()[56] =~= seq!['m', 'i']);
            assert(syllabary_spec()[56] == rename_token(raw_syllabary()[56]));
            assert(raw_syllabary()[56] != "si"@) by {
                assert(tok_code(seq!['m', 'i']) != tok_code("si"@));
            }
            assert(raw_syllabary()[56] != "ti"@) by {
                assert(tok_code(seq!['m', 'i']) != tok_code("ti"@));
            }
            assert(raw_syllabary()[56] != "tu"@) by {
                assert(tok_code(seq!['m', 'i']) != tok_code("tu"@));
            }
            assert(raw_syllabary()[56] != "hu"@) by {
                assert(tok_code(seq!['m', 'i']) != tok_code("hu"@));
            }
            assert(raw_syllabary()[56] != "zi"@) by {
                assert(tok_code(seq!['m', 'i']) != tok_code("zi"@));
            }
            assert(rename_token(raw_syllabary()[56]) == raw_syllabary()[56]);
            assert(syllabary_spec()[56] =~= syllabary_literal()[56]);
        } else if j == 57 {
            crate::conv::lemma_cv_grid_entry(consonant_onsets(), vowels_order(), 10, 2);
            assert(pb[52] == consonant_onsets()[10].push(vowels_order()[2]));
            assert(raw_syllabary()[57] == pb[52]);
            assert(raw_syllabary()[57] =~= seq!['m', 'u']);
            assert(syllabary_spec()[57] == rename_token(raw_syllabary()[57]));
            assert(raw_syllabary()[57] != "si"@) by {
                assert(tok_code(seq!['m', 'u']) != tok_code("si"@));
            }
            assert(raw_syllabary()[57] != "ti"@) by {
                assert(tok_code(seq!['m', 'u']) != tok_code("ti"@));
            }
            assert(raw_syllabary()[57] != "tu"@) by {
                assert(tok_code(seq!['m', 'u']) != tok_code("tu"@));
            }
            assert(raw_syllabary()[57] != "hu"@) by {
                assert(tok_code(seq!['m', 'u']) != tok_code("hu"@));
            }
            assert(raw_syllabary()[57] != "zi"@) by {
                assert(tok_code(seq!['m', 'u']) != tok_code("zi"@));
            }
            assert(rename_token(raw_syllabary()[57]) == raw_syllabary()[57]);
            assert(syllabary_spec()[57] =~= syllabary_literal()[57]);
        } else if j == 58 {
            crate::conv::lemma_cv_grid_entry(consonant_onsets(), vowels_order(), 10, 3);
            assert(pb[53] == consonant_onsets()[10].push(vowels_order()[3]));
            assert(raw_syllabary()[58] == pb[53]);
            assert(raw_syllabary()[58] =~= seq!['m', 'e']);
            assert(syllabary_spec()[58] == rename_token(raw_syllabary()[58]));
            assert(raw_syllabary()[58] != "si"@) by {
                assert(tok_code(seq!['m', 'e']) != tok_code("si"@));
            }
            assert(raw_syllabary()[58] != "ti"@) by {
                assert(tok_code(seq!['m', 'e']) != tok_code("ti"@));
            }
            assert(raw_syllabary()[58] != "tu"@) by {
                assert(tok_code(seq!['m', 'e']) != tok_code("tu"@));
            }
            assert(raw_syllabary()[58] != "hu"@) by {
                assert(tok_code(seq!['m', 'e']) != tok_code("hu"@));
            }
            assert(raw_syllabary()[58] != "zi"@) by {
                assert(tok_code(seq!['m', 'e']) != tok_code("zi"@));
            }
            assert(rename_token(raw_syllabary()[58]) == raw_syllabary()[58]);
            assert(syllabary_spec()[58] =~= syllabary_literal()[58]);
        } else if j == 59 {
            crate::conv::lemma_cv_grid_entry(consonant_onsets(), vowels_order(), 10, 4);
            assert(pb[54] == consonant_onsets()[10].push(vowels_order()[4]));
            assert(raw_syllabary()[59] == pb[54]);
            assert(raw_syllabary()[59] =~= seq!['m', 'o']);
            assert(syllabary_spec()[59] == rename_token(raw_syllabary()[59]));
            assert(raw_syllabary()[59] != "si"@) by {
                assert(tok_code(seq!['m', 'o']) != tok_code("si"@));
            }
            assert(raw_syllabary()[59] != "ti"@) by {
                assert(tok_code(seq!['m', 'o']) != tok_code("ti"@));
            }
            assert(raw_syllabary()[59] != "tu"@) by {
                assert(tok_code(seq!['m', 'o']) != tok_code("tu"@));
            }
            assert(raw_syllabary()[59] != "hu"@) by {
                assert(tok_code(seq!['m', 'o']) != tok_code("hu"@));
            }
            assert(raw_syllabary()[59] != "zi"@) by {
                assert(tok_code(seq!['m', 'o']) != tok_code("zi"@));
            }
            assert(rename_token(raw_syllabary()[59]) == raw_syllabary()[59]);
            assert(syllabary_spec()[59] =~= syllabary_literal()[59]);
        } else {
        }
    }
}

proof fn syllabary_literal_part_60_70()
    ensures
        forall|j: int| 60 <= j < 70 ==> syllabary_spec()[j] == syllabary_literal()[j],
{
    reveal_strlit("si");
    reveal_strlit("shi");
    reveal_strlit("ti");
    reveal_strlit("chi");
    reveal_strlit("tu");
    reveal_strlit("tsu");
    reveal_strlit("hu");
    reveal_strlit("fu");
    reveal_strlit("zi");
    reveal_strlit("ji");
    lemma_syllabary_len();
    lemma_cv_row_len(Seq::<char>::empty(), vowels_order());
    lemma_cv_grid_len(consonant_onsets(), vowels_order());
    lemma_cv_grid_len(digraph_onsets(), digraph_vowels_order());
    assert forall|j: int| 60 <= j < 70 implies syllabary_spec()[j] == syllabary_literal()[j] by {
        let pa = cv_row(Seq::<char>::empty(), vowels_order());
        let pb = cv_grid(consonant_onsets(), vowels_order());
        let pc = cv_grid(digraph_onsets(), digraph_vowels_order());
        let pd = seq!["n"@, "G"@, "je"@];
        assert(pa.len() == 5);
        assert(consonant_onsets().len() == 14 && vowels_order().len() == 5);
        assert(pb.len() == 14 * 5);
        assert(digraph_onsets().len() == 11 && digraph_vowels_order().len() == 3);
        assert(pc.len() == 11 * 3);
        assert(raw_syllabary() == pa + pb + pc + pd);
        if j == 60 {
            crate::conv::lemma_cv_grid_entry(consonant_onsets(), vowels_order(), 11, 0);
            assert(pb[55] == consonant_onsets()[11].push(vowels_order()[0]));
            assert(raw_syllabary()[60] == pb[55]);
            assert(raw_syllabary()[60] =~= seq!['y', 'a']);
            assert(syllabary_spec()[60] == rename_token(raw_syllabary()[60]));
            assert(raw_syllabary()[60] != "si"@) by {
                assert(tok_code(seq!['y', 'a']) != tok_code("si"@));
            }
            assert(raw_syllabary()[60] != "ti"@) by {
                assert(tok_code(seq!['y', 'a']) != tok_code("ti"@));
            }
            assert(raw_syllabary()[60] != "tu"@) by {
                assert(tok_code(seq!['y', 'a']) != tok_code("tu"@));
            }
            assert(raw_syllabary()[60] != "hu"@) by {
                assert(tok_code(seq!['y', 'a']) != tok_code("hu"@));
            }
            assert(raw_syllabary()[60] != "zi"@) by {
                assert(tok_code(seq!['y', 'a']) != tok_code("zi"@));
            }
            assert(rename_token(raw_syllabary()[60]) == raw_syllabary()[60]);
            assert(syllabary_spec()[60] =~= syllabary_literal()[60]);
        } else if j == 61 {
            crate::conv::lemma_cv_grid_entry(consonant_onsets(), vowels_order(), 11, 1);
            assert(pb[56] == consonant_onsets()[11].push(vowels_order()[1]));
            assert(raw_syllabary()[61] == pb[56]);
            assert(raw_syllabary()[61] =~= seq!['y', 'i']);
            assert(syllabary_spec()[61] == rename_token(raw_syllabary()[61]));
            assert(raw_syllabary()[61] != "si"@) by {
                assert(tok_code(seq!['y', 'i']) != tok_code("si"@));
            }
            assert(raw_syllabary()[61] != "ti"@) by {
                assert(tok_code(seq!['y', 'i']) != tok_code("ti"@));
            }
            assert(raw_syllabary()[61] != "tu"@) by {
                assert(tok_code(seq!['y', 'i']) != tok_code("tu"@));
            }
            assert(raw_syllabary()[61] != "hu"@) by {
                assert(tok_code(seq!['y', 'i']) != tok_code("hu"@));
            }
            assert(raw_syllabary()[61] != "zi"@) by {
                assert(tok_code(seq!['y', 'i']) != tok_code("zi"@));
            }
            assert(rename_token(raw_syllabary()[61]) == raw_syllabary()[61]);
            assert(syllabary_spec()[61] =~= syllabary_literal()[61]);
        } else if j == 62 {
            crate::conv::lemma_cv_grid_entry(consonant_onsets(), vowels_order(), 11, 2);
            assert(pb[57] == consonant_onsets()[11].push(vowels_order()[2]));
            assert(raw_syllabary()[62] == pb[57]);
            assert(raw_syllabary()[62] =~= seq!['y', 'u']);
            assert(syllabary_spec()[62] == rename_token(raw_syllabary()[62]));
            assert(raw_syllabary()[62] != "si"@) by {
                assert(tok_code(seq!['y', 'u']) != tok_code("si"@));
            }
            assert(raw_syllabary()[62] != "ti"@) by {
                assert(tok_code(seq!['y', 'u']) != tok_code("ti"@));
            }
            assert(raw_syllabary()[62] != "tu"@) by {
                assert(tok_code(seq!['y', 'u']) != tok_code("tu"@));
            }
            assert(raw_syllabary()[62] != "hu"@) by {
                assert(tok_code(seq!['y', 'u']) != tok_code("hu"@));
            }
            assert(raw_syllabary()[62] != "zi"@) by {
                assert(tok_code(seq!['y', 'u']) != tok_code("zi"@));
            }
            assert(rename_token(raw_syllabary()[62]) == raw_syllabary()[62]);
            assert(syllabary_spec()[62] =~= syllabary_literal()[62]);
        } else if j == 63 {
            crate::conv::lemma_cv_grid_entry(consonant_onsets(), vowels_order(), 11, 3);
            assert(pb[58] == consonant_onsets()[11].push(vowels_order()[3]));
            assert(raw_syllabary()[63] == pb[58]);
            assert(raw_syllabary()[63] =~= seq!['y', 'e']);
            assert(syllabary_spec()[63] == rename_token(raw_syllabary()[63]));
            assert(raw_syllabary()[63] != "si"@) by {
                assert(tok_code(seq!['y', 'e']) != tok_code("si"@));
            }
            assert(raw_syllabary()[63] != "ti"@) by {
                assert(tok_code(seq!['y', 'e']) != tok_code("ti"@));
            }
            assert(raw_syllabary()[63] != "tu"@) by {
                assert(tok_code(seq!['y', 'e']) != tok_code("tu"@));
            }
            assert(raw_syllabary()[63] != "hu"@) by {
                assert(tok_code(seq!['y', 'e']) != tok_code("hu"@));
            }
            assert(raw_syllabary()[63] != "zi"@) by {
                assert(tok_code(seq!['y', 'e']) != tok_code("zi"@));
            }
            assert(rename_token(raw_syllabary()[63]) == raw_syllabary()[63]);
            assert(syllabary_spec()[63] =~= syllabary_literal()[63]);
        } else if j == 64 {
            crate::conv::lemma_cv_grid_entry(consonant_onsets(), vowels_order(), 11, 4);
            assert(pb[59] == consonant_onsets()[11].push(vowels_order()[4]));
            assert(raw_syllabary()[64] == pb[59]);
            assert(raw_syllabary()[64] =~= seq!['y', 'o']);
            assert(syllabary_spec()[64] == rename_token(raw_syllabary()[64]));
            assert(raw_syllabary()[64] != "si"@) by {
                assert(tok_code(seq!['y', 'o']) != tok_code("si"@));
            }
            assert(raw_syllabary()[64] != "ti"@) by {
                assert(tok_code(seq!['y', 'o']) != tok_code("ti"@));
            }
            assert(raw_syllabary()[64] != "tu"@) by {
                assert(tok_code(seq!['y', 'o']) != tok_code("tu"@));
            }
            assert(raw_syllabary()[64] != "hu"@) by {
                assert(tok_code(seq!['y', 'o']) != tok_code("hu"@));
            }
            assert(raw_syllabary()[64] != "zi"@) by {
                assert(tok_code(seq!['y', 'o']) != tok_code("zi"@));
            }
            assert(rename_token(raw_syllabary()[64]) == raw_syllabary()[64]);
            assert(syllabary_spec()[64] =~= syllabary_literal()[64]);
        } else if j == 65 {
            crate::conv::lemma_cv_grid_entry(consonant_onsets(), vowels_order(), 12, 0);
            assert(pb[60] == consonant_onsets()[12].push(vowels_order()[0]));
            assert(raw_syllabary()[65] == pb[60]);
            assert(raw_syllabary()[65] =~= seq!['r', 'a']);
            assert(syllabary_spec()[65] == rename_token(raw_syllabary()[65]));
            assert(raw_syllabary()[65] != "si"@) by {
                assert(tok_code(seq!['r', 'a']) != tok_code("si"@));
            }
            assert(raw_syllabary()[65] != "ti"@) by {
                assert(tok_code(seq!['r', 'a']) != tok_code("ti"@));
            }
            assert(raw_syllabary()[65] != "tu"@) by {
                assert(tok_code(seq!['r', 'a']) != tok_code("tu"@));
            }
            assert(raw_syllabary()[65] != "hu"@) by {
                assert(tok_code(seq!['r', 'a']) != tok_code("hu"@));
            }
            assert(raw_syllabary()[65] != "zi"@) by {
                assert(tok_code(seq!['r', 'a']) != tok_code("zi"@));
            }
            assert(rename_token(raw_syllabary()[65]) == raw_syllabary()[65]);
            assert(syllabary_spec()[65] =~= syllabary_literal()[65]);
        } else if j == 66 {
            crate::conv::lemma_cv_grid_entry(consonant_onsets(), vowels_order(), 12, 1);
            assert(pb[61] == consonant_onsets()[12].push(vowels_order()[1]));
            assert(raw_syllabary()[66] == pb[61]);
            assert(raw_syllabary()[66] =~= seq!['r', 'i']);
            assert(syllabary_spec()[66] == rename_token(raw_syllabary()[66]));
            assert(raw_syllabary()[66] != "si"@) by {
                assert(tok_code(seq!['r', 'i']) != tok_code("si"@));
            }
            assert(raw_syllabary()[66] != "ti"@) by {
                assert(tok_code(seq!['r', 'i']) != tok_code("ti"@));
            }
            assert(raw_syllabary()[66] != "tu"@) by {
                assert(tok_code(seq!['r', 'i']) != tok_code("tu"@));
            }
            assert(raw_syllabary()[66] != "hu"@) by {
                assert(tok_code(seq!['r', 'i']) != tok_code("hu"@));
            }
            assert(raw_syllabary()[66] != "zi"@) by {
                assert(tok_code(seq!['r', 'i']) != tok_code("zi"@));
            }
            assert(rename_token(raw_syllabary()[66]) == raw_syllabary()[66]);
            assert(syllabary_spec()[66] =~= syllabary_literal()[66]);
        } else if j == 67 {
            crate::conv::lemma_cv_grid_entry(consonant_onsets(), vowels_order(), 12, 2);
            assert(pb[62] == consonant_onsets()[12].push(vowels_order()[2]));
            assert(raw_syllabary()[67] == pb[62]);
            assert(raw_syllabary()[67] =~= seq!['r', 'u']);
            assert(syllabary_spec()[67] == rename_token(raw_syllabary()[67]));
            assert(raw_syllabary()[67] != "si"@) by {
                assert(tok_code(seq!['r', 'u']) != tok_code("si"@));
            }
            assert(raw_syllabary()[67] != "ti"@) by {
                assert(tok_code(seq!['r', 'u']) != tok_code("ti"@));
            }
            assert(raw_syllabary()[67] != "tu"@) by {
                assert(tok_code(seq!['r', 'u']) != tok_code("tu"@));
            }
            assert(raw_syllabary()[67] != "hu"@) by {
                assert(tok_code(seq!['r', 'u']) != tok_code("hu"@));
            }
            assert(raw_syllabary()[67] != "zi"@) by {
                assert(tok_code(seq!['r', 'u']) != tok_code("zi"@));
            }
            assert(rename_token(raw_syllabary()[67]) == raw_syllabary()[67]);
            assert(syllabary_spec()[67] =~= syllabary_literal()[67]);
        } else if j == 68 {
            crate::conv::lemma_cv_grid_entry(consonant_onsets(), vowels_order(), 12, 3);
            assert(pb[63] == consonant_onsets()[12].push(vowels_order()[3]));
            assert(raw_syllabary()[68] == pb[63]);
            assert(raw_syllabary()[68] =~= seq!['r', 'e']);
            assert(syllabary_spec()[68] == rename_token(raw_syllabary()[68]));
            assert(raw_syllabary()[68] != "si"@) by {
                assert(tok_code(seq!['r', 'e']) != tok_code("si"@));
            }
            assert(raw_syllabary()[68] != "ti"@) by {
                assert(tok_code(seq!['r', 'e']) != tok_code("ti"@));
            }
            assert(raw_syllabary()[68] != "tu"@) by {
                assert(tok_code(seq!['r', 'e']) != tok_code("tu"@));
            }
            assert(raw_syllabary()[68] != "hu"@) by {
                assert(tok_code(seq!['r', 'e']) != tok_code("hu"@));
            }
            assert(raw_syllabary()[68] != "zi"@) by {
                assert(tok_code(seq!['r', 'e']) != tok_code("zi"@));
            }
            assert(rename_token(raw_syllabary()[68]) == raw_syllabary()[68]);
            assert(syllabary_spec()[68] =~= syllabary_literal()[68]);
        } else if j == 69 {
            crate::conv::lemma_cv_grid_entry(consonant_onsets(), vowels_order(), 12, 4);
            assert(pb[64] == consonant_onsets()[12].push(vowels_order()[4]));
            assert(raw_syllabary()[69] == pb[64]);
            assert(raw_syllabary()[69] =~= seq!['r', 'o']);
            assert(syllabary_spec()[69] == rename_token(raw_syllabary()[69]));
            assert(raw_syllabary()[69] != "si"@) by {
                assert(tok_code(seq!['r', 'o']) != tok_code("si"@));
            }
            assert(raw_syllabary()[69] != "ti"@) by {
                assert(tok_code(seq!['r', 'o']) != tok_code("ti"@));
            }
            assert(raw_syllabary()[69] != "tu"@) by {
                assert(tok_code(seq!['r', 'o']) != tok_code("tu"@));
            }
            assert(raw_syllabary()[69] != "hu"@) by {
                assert(tok_code(seq!['r', 'o']) != tok_code("hu"@));
            }
            assert(raw_syllabary()[69] != "zi"@) by {
                assert(tok_code(seq!['r', 'o']) != tok_code("zi"@));
            }
            assert(rename_token(raw_syllabary()[69]) == raw_syllabary()[69]);
            assert(syllabary_spec()[69] =~= syllabary_literal()[69]);
        } else {
        }
    }
}

proof fn syllabary_literal_part_70_80()
    ensures
        forall|j: int| 70 <= j < 80 ==> syllabary_spec()[j] == syllabary_literal()[j],
{
    reveal_strlit("si");
    reveal_strlit("shi");
    reveal_strlit("ti");
    reveal_strlit("chi");
    reveal_strlit("tu");
    reveal_strlit("tsu");
    reveal_strlit("hu");
    reveal_strlit("fu");
    reveal_strlit("zi");
    reveal_strlit("ji");
    reveal_strlit("ky");
    reveal_strlit("sh");
    reveal_strlit("ch");
    reveal_strlit("nq");
    reveal_strlit("hy");
    reveal_strlit("my");
    reveal_strlit("ry");
    reveal_strlit("gy");
    reveal_strlit("j");
    reveal_strlit("by");
    reveal_strlit("py");
    lemma_syllabary_len();
    lemma_cv_row_len(Seq::<char>::empty(), vowels_order());
    lemma_cv_grid_len(consonant_onsets(), vowels_order());
    lemma_cv_grid_len(digraph_onsets(), digraph_vowels_order());
    assert forall|j: int| 70 <= j < 80 implies syllabary_spec()[j] == syllabary_literal()[j] by {
        let pa = cv_row(Seq::<char>::empty(), vowels_order());
        let pb = cv_grid(consonant_onsets(), vowels_order());
        let pc = cv_grid(digraph_onsets(), digraph_vowels_order());
        let pd = seq!["n"@, "G"@, "je"@];
        assert(pa.len() == 5);
        assert(consonant_onsets().len() == 14 && vowels_order().len() == 5);
        assert(pb.len() == 14 * 5);
        assert(digraph_onsets().len() == 11 && digraph_vowels_order().len() == 3);
        assert(pc.len() == 11 * 3);
        assert(raw_syllabary() == pa + pb + pc + pd);
        if j == 70 {
            crate::conv::lemma_cv_grid_entry(consonant_onsets(), vowels_order(), 13, 0);
            assert(pb[65] == consonant_onsets()[13].push(vowels_order()[0]));
            assert(raw_syllabary()[70] == pb[65]);
            assert(raw_syllabary()[70] =~= seq!['w', 'a']);
            assert(syllabary_spec()[70] == rename_token(raw_syllabary()[70]));
            assert(raw_syllabary()[70] != "si"@) by {
                assert(tok_code(seq!['w', 'a']) != tok_code("si"@));
            }
            assert(raw_syllabary()[70] != "ti"@) by {
                assert(tok_code(seq!['w', 'a']) != tok_code("ti"@));
            }
            assert(raw_syllabary()[70] != "tu"@) by {
                assert(tok_code(seq!['w', 'a']) != tok_code("tu"@));
            }
            assert(raw_syllabary()[70] != "hu"@) by {
                assert(tok_code(seq!['w', 'a']) != tok_code("hu"@));
            }
            assert(raw_syllabary()[70] != "zi"@) by {
                assert(tok_code(seq!['w', 'a']) != tok_code("zi"@));
            }
            assert(rename_token(raw_syllabary()[70]) == raw_syllabary()[70]);
            assert(syllabary_spec()[70] =~= syllabary_literal()[70]);
        } else if j == 71 {
            crate::conv::lemma_cv_grid_entry(consonant_onsets(), vowels_order(), 13, 1);
            assert(pb[66] == consonant_onsets()[13].push(vowels_order()[1]));
            assert(raw_syllabary()[71] == pb[66]);
            assert(raw_syllabary()[71] =~= seq!['w', 'i']);
            assert(syllabary_spec()[71] == rename_token(raw_syllabary()[71]));
            assert(raw_syllabary()[71] != "si"@) by {
                assert(tok_code(seq!['w', 'i']) != tok_code("si"@));
            }
            assert(raw_syllabary()[71] != "ti"@) by {
                assert(tok_code(seq!['w', 'i']) != tok_code("ti"@));
            }
            assert(raw_syllabary()[71] != "tu"@) by {
                assert(tok_code(seq!['w', 'i']) != tok_code("tu"@));
            }
            assert(raw_syllabary()[71] != "hu"@) by {
                assert(tok_code(seq!['w', 'i']) != tok_code("hu"@));
            }
            assert(raw_syllabary()[71] != "zi"@) by {
                assert(tok_code(seq!['w', 'i']) != tok_code("zi"@));
            }
            assert(rename_token(raw_syllabary()[71]) == raw_syllabary()[71]);
            assert(syllabary_spec()[71] =~= syllabary_literal()[71]);
        } else if j == 72 {
            crate::conv::lemma_cv_grid_entry(consonant_onsets(), vowels_order(), 13, 2);
            assert(pb[67] == consonant_onsets()[13].push(vowels_order()[2]));
            assert(raw_syllabary()[72] == pb[67]);
            assert(raw_syllabary()[72] =~= seq!['w', 'u']);
            assert(syllabary_spec()[72] == rename_token(raw_syllabary()[72]));
            assert(raw_syllabary()[72] != "si"@) by {
                assert(tok_code(seq!['w', 'u']) != tok_code("si"@));
            }
            assert(raw_syllabary()[72] != "ti"@) by {
                assert(tok_code(seq!['w', 'u']) != tok_code("ti"@));
            }
            assert(raw_syllabary()[72] != "tu"@) by {
                assert(tok_code(seq!['w', 'u']) != tok_code("tu"@));
            }
            assert(raw_syllabary()[72] != "hu"@) by {
                assert(tok_code(seq!['w', 'u']) != tok_code("hu"@));
            }
            assert(raw_syllabary()[72] != "zi"@) by {
                assert(tok_code(seq!['w', 'u']) != tok_code("zi"@));
            }
            assert(rename_token(raw_syllabary()[72]) == raw_syllabary()[72]);
            assert(syllabary_spec()[72] =~= syllabary_literal()[72]);
        } else if j == 73 {
            crate::conv::lemma_cv_grid_entry(consonant_onsets(), vowels_order(), 13, 3);
            assert(pb[68] == consonant_onsets()[13].push(vowels_order()[3]));
            assert(raw_syllabary()[73] == pb[68]);
            assert(raw_syllabary()[73] =~= seq!['w', 'e']);
            assert(syllabary_spec()[73] == rename_token(raw_syllabary()[73]));
            assert(raw_syllabary()[73] != "si"@) by {
                assert(tok_code(seq!['w', 'e']) != tok_code("si"@));
            }
            assert(raw_syllabary()[73] != "ti"@) by {
                assert(tok_code(seq!['w', 'e']) != tok_code("ti"@));
            }
            assert(raw_syllabary()[73] != "tu"@) by {
                assert(tok_code(seq!['w', 'e']) != tok_code("tu"@));
            }
            assert(raw_syllabary()[73] != "hu"@) by {
                assert(tok_code(seq!['w', 'e']) != tok_code("hu"@));
            }
            assert(raw_syllabary()[73] != "zi"@) by {
                assert(tok_code(seq!['w', 'e']) != tok_code("zi"@));
            }
            assert(rename_token(raw_syllabary()[73]) == raw_syllabary()[73]);
            assert(syllabary_spec()[73] =~= syllabary_literal()[73]);
        } else if j == 74 {
            crate::conv::lemma_cv_grid_entry(consonant_onsets(), vowels_order(), 13, 4);
            assert(pb[69] == consonant_onsets()[13].push(vowels_order()[4]));
            assert(raw_syllabary()[74] == pb[69]);
            assert(raw_syllabary()[74] =~= seq!['w', 'o']);
            assert(syllabary_spec()[74] == rename_token(raw_syllabary()[74]));
            assert(raw_syllabary()[74] != "si"@) by {
                assert(tok_code(seq!['w', 'o']) != tok_code("si"@));
            }
            assert(raw_syllabary()[74] != "ti"@) by {
                assert(tok_code(seq!['w', 'o']) != tok_code("ti"@));
            }
            assert(raw_syllabary()[74] != "tu"@) by {
                assert(tok_code(seq!['w', 'o']) != tok_code("tu"@));
            }
            assert(raw_syllabary()[74] != "hu"@) by {
                assert(tok_code(seq!['w', 'o']) != tok_code("hu"@));
            }
            assert(raw_syllabary()[74] != "zi"@) by {
                assert(tok_code(seq!['w', 'o']) != tok_code("zi"@));
            }
            assert(rename_token(raw_syllabary()[74]) == raw_syllabary()[74]);
            assert(syllabary_spec()[74] =~= syllabary_literal()[74]);
        } else if j == 75 {
            crate::conv::lemma_cv_grid_entry(digraph_onsets(), digraph_vowels_order(), 0, 0);
            assert(pc[0] == digraph_onsets()[0].push(digraph_vowels_order()[0]));
            assert(raw_syllabary()[75] == pc[0]);
            assert(raw_syllabary()[75] =~= seq!['k', 'y', 'a']);
            assert(syllabary_spec()[75] == rename_token(raw_syllabary()[75]));
            assert(raw_syllabary()[75] != "si"@) by {
                assert(tok_code(seq!['k', 'y', 'a']) != tok_code("si"@));
            }
            assert(raw_syllabary()[75] != "ti"@) by {
                assert(tok_code(seq!['k', 'y', 'a']) != tok_code("ti"@));
            }
            assert(raw_syllabary()[75] != "tu"@) by {
                assert(tok_code(seq!['k', 'y', 'a']) != tok_code("tu"@));
            }
            assert(raw_syllabary()[75] != "hu"@) by {
                assert(tok_code(seq!['k', 'y', 'a']) != tok_code("hu"@));
            }
            assert(raw_syllabary()[75] != "zi"@) by {
                assert(tok_code(seq!['k', 'y', 'a']) != tok_code("zi"@));
            }
            assert(rename_token(raw_syllabary()[75]) == raw_syllabary()[75]);
            assert(syllabary_spec()[75] =~= syllabary_literal()[75]);
        } else if j == 76 {
            crate::conv::lemma_cv_grid_entry(digraph_onsets(), digraph_vowels_order(), 0, 1);
            assert(pc[1] == digraph_onsets()[0].push(digraph_vowels_order()[1]));
            assert(raw_syllabary()[76] == pc[1]);
            assert(raw_syllabary()[76] =~= seq!['k', 'y', 'u']);
            assert(syllabary_spec()[76] == rename_token(raw_syllabary()[76]));
            assert(raw_syllabary()[76] != "si"@) by {
                assert(tok_code(seq!['k', 'y', 'u']) != tok_code("si"@));
            }
            assert(raw_syllabary()[76] != "ti"@) by {
                assert(tok_code(seq!['k', 'y', 'u']) != tok_code("ti"@));
            }
            assert(raw_syllabary()[76] != "tu"@) by {
                assert(tok_code(seq!['k', 'y', 'u']) != tok_code("tu"@));
            }
            assert(raw_syllabary()[76] != "hu"@) by {
                assert(tok_code(seq!['k', 'y', 'u']) != tok_code("hu"@));
            }
            assert(raw_syllabary()[76] != "zi"@) by {
                assert(tok_code(seq!['k', 'y', 'u']) != tok_code("zi"@));
            }
            assert(rename_token(raw_syllabary()[76]) == raw_syllabary()[76]);
            assert(syllabary_spec()[76] =~= syllabary_literal()[76]);
        } else if j == 77 {
            crate::conv::lemma_cv_grid_entry(digraph_onsets(), digraph_vowels_order(), 0, 2);
            assert(pc[2] == digraph_onsets()[0].push(digraph_vowels_order()[2]));
            assert(raw_syllabary()[77] == pc[2]);
            assert(raw_syllabary()[77] =~= seq!['k', 'y', 'o']);
            assert(syllabary_spec()[77] == rename_token(raw_syllabary()[77]));
            assert(raw_syllabary()[77] != "si"@) by {
                assert(tok_code(seq!['k', 'y', 'o']) != tok_code("si"@));
            }
            assert(raw_syllabary()[77] != "ti"@) by {
                assert(tok_code(seq!['k', 'y', 'o']) != tok_code("ti"@));
            }
            assert(raw_syllabary()[77] != "tu"@) by {
                assert(tok_code(seq!['k', 'y', 'o']) != tok_code("tu"@));
            }
            assert(raw_syllabary()[77] != "hu"@) by {
                assert(tok_code(seq!['k', 'y', 'o']) != tok_code("hu"@));
            }
            assert(raw_syllabary()[77] != "zi"@) by {
                assert(tok_code(seq!['k', 'y', 'o']) != tok_code("zi"@));
            }
            assert(rename_token(raw_syllabary()[77]) == raw_syllabary()[77]);
            assert(syllabary_spec()[77] =~= syllabary_literal()[77]);
        } else if j == 78 {
            crate::conv::lemma_cv_grid_entry(digraph_onsets(), digraph_vowels_order(), 1, 0);
            assert(pc[3] == digraph_onsets()[1].push(digraph_vowels_order()[0]));
            assert(raw_syllabary()[78] == pc[3]);
            assert(raw_syllabary()[78] =~= seq!['s', 'h', 'a']);
            assert(syllabary_spec()[78] == rename_token(raw_syllabary()[78]));
            assert(raw_syllabary()[78] != "si"@) by {
                assert(tok_code(seq!['s', 'h', 'a']) != tok_code("si"@));
            }
            assert(raw_syllabary()[78] != "ti"@) by {
                assert(tok_code(seq!['s', 'h', 'a']) != tok_code("ti"@));
            }
            assert(raw_syllabary()[78] != "tu"@) by {
                assert(tok_code(seq!['s', 'h', 'a']) != tok_code("tu"@));
            }
            assert(raw_syllabary()[78] != "hu"@) by {
                assert(tok_code(seq!['s', 'h', 'a']) != tok_code("hu"@));
            }
            assert(raw_syllabary()[78] != "zi"@) by {
                assert(tok_code(seq!['s', 'h', 'a']) != tok_code("zi"@));
            }
            assert(rename_token(raw_syllabary()[78]) == raw_syllabary()[78]);
            assert(syllabary_spec()[78] =~= syllabary_literal()[78]);
        } else if j == 79 {
            crate::conv::lemma_cv_grid_entry(digraph_onsets(), digraph_vowels_order(), 1, 1);
            assert(pc[4] == digraph_onsets()[1].push(digraph_vowels_order()[1]));
            assert(raw_syllabary()[79] == pc[4]);
            assert(raw_syllabary()[79] =~= seq!['s', 'h', 'u']);
            assert(syllabary_spec()[79] == rename_token(raw_syllabary()[79]));
            assert(raw_syllabary()[79] != "si"@) by {
                assert(tok_code(seq!['s', 'h', 'u']) != tok_code("si"@));
            }
            assert(raw_syllabary()[79] != "ti"@) by {
                assert(tok_code(seq!['s', 'h', 'u']) != tok_code("ti"@));
            }
            assert(raw_syllabary()[79] != "tu"@) by {
                assert(tok_code(seq!['s', 'h', 'u']) != tok_code("tu"@));
            }
            assert(raw_syllabary()[79] != "hu"@) by {
                assert(tok_code(seq!['s', 'h', 'u']) != tok_code("hu"@));
            }
            assert(raw_syllabary()[79] != "zi"@) by {
                assert(tok_code(seq!['s', 'h', 'u']) != tok_code("zi"@));
            }
            assert(rename_token(raw_syllabary()[79]) == raw_syllabary()[79]);
            assert(syllabary_spec()[79] =~= syllabary_literal()[79]);
        } else {
        }
    }
}

proof fn syllabary_literal_part_80_90()
    ensures
        forall|j: int| 80 <= j < 90 ==> syllabary_spec()[j] == syllabary_literal()[j],
{
    reveal_strlit("si");
    reveal_strlit("shi");
    reveal_strlit("ti");
    reveal_strlit("chi");
    reveal_strlit("tu");
    reveal_strlit("tsu");
    reveal_strlit("hu");
    reveal_strlit("fu");
    reveal_strlit("zi");
    reveal_strlit("ji");
    reveal_strlit("ky");
    reveal_strlit("sh");
    reveal_strlit("ch");
    reveal_strlit("nq");
    reveal_strlit("hy");
    reveal_strlit("my");
    reveal_strlit("ry");
    reveal_strlit("gy");
    reveal_strlit("j");
    reveal_strlit("by");
    reveal_strlit("py");
    lemma_syllabary_len();
    lemma_cv_row_len(Seq::<char>::empty(), vowels_order());
    lemma_cv_grid_len(consonant_onsets(), vowels_order());
    lemma_cv_grid_len(digraph_onsets(), digraph_vowels_order());
    assert forall|j: int| 80 <= j < 90 implies syllabary_spec()[j] == syllabary_literal()[j] by {
        let pa = cv_row(Seq::<char>::empty(), vowels_order());
        let pb = cv_grid(consonant_onsets(), vowels_order());
        let pc = cv_grid(digraph_onsets(), digraph_vowels_order());
        let pd = seq!["n"@, "G"@, "je"@];
        assert(pa.len() == 5);
        assert(consonant_onsets().len() == 14 && vowels_order().len() == 5);
        assert(pb.len() == 14 * 5);
        assert(digraph_onsets().len() == 11 && digraph_vowels_order().len() == 3);
        assert(pc.len() == 11 * 3);
        assert(raw_syllabary() == pa + pb + pc + pd);
        if j == 80 {
            crate::conv::lemma_cv_grid_entry(digraph_onsets(), digraph_vowels_order(), 1, 2);
            assert(pc[5] == digraph_onsets()[1].push(digraph_vowels_order()[2]));
            assert(raw_syllabary()[80] == pc[5]);
            assert(raw_syllabary()[80] =~= seq!['s', 'h', 'o']);
            assert(syllabary_spec()[80] == rename_token(raw_syllabary()[80]));
            assert(raw_syllabary()[80] != "si"@) by {
                assert(tok_code(seq!['s', 'h', 'o']) != tok_code("si"@));
            }
            assert(raw_syllabary()[80] != "ti"@) by {
                assert(tok_code(seq!['s', 'h', 'o']) != tok_code("ti"@));
            }
            assert(raw_syllabary()[80] != "tu"@) by {
                assert(tok_code(seq!['s', 'h', 'o']) != tok_code("tu"@));
            }
            assert(raw_syllabary()[80] != "hu"@) by {
                assert(tok_code(seq!['s', 'h', 'o']) != tok_code("hu"@));
            }
            assert(raw_syllabary()[80] != "zi"@) by {
                assert(tok_code(seq!['s', 'h', 'o']) != tok_code("zi"@));
            }
            assert(rename_token(raw_syllabary()[80]) == raw_syllabary()[80]);
            assert(syllabary_spec()[80] =~= syllabary_literal()[80]);
        } else if j == 81 {
            crate::conv::lemma_cv_grid_entry(digraph_onsets(), digraph_vowels_order(), 2, 0);
            assert(pc[6] == digraph_onsets()[2].push(digraph_vowels_order()[0]));
            assert(raw_syllabary()[81] == pc[6]);
            assert(raw_syllabary()[81] =~= seq!['c', 'h', 'a']);
            assert(syllabary_spec()[81] == rename_token(raw_syllabary()[81]));
            assert(raw_syllabary()[81] != "si"@) by {
                assert(tok_code(seq!['c', 'h', 'a']) != tok_code("si"@));
            }
            assert(raw_syllabary()[81] != "ti"@) by {
                assert(tok_code(seq!['c', 'h', 'a']) != tok_code("ti"@));
            }
            assert(raw_syllabary()[81] != "tu"@) by {
                assert(tok_code(seq!['c', 'h', 'a']) != tok_code("tu"@));
            }
            assert(raw_syllabary()[81] != "hu"@) by {
                assert(tok_code(seq!['c', 'h', 'a']) != tok_code("hu"@));
            }
            assert(raw_syllabary()[81] != "zi"@) by {
                assert(tok_code(seq!['c', 'h', 'a']) != tok_code("zi"@));
            }
            assert(rename_token(raw_syllabary()[81]) == raw_syllabary()[81]);
            assert(syllabary_spec()[81] =~= syllabary_literal()[81]);
        } else if j == 82 {
            crate::conv::lemma_cv_grid_entry(digraph_onsets(), digraph_vowels_order(), 2, 1);
            assert(pc[7] == digraph_onsets()[2].push(digraph_vowels_order()[1]));
            assert(raw_syllabary()[82] == pc[7]);
            assert(raw_syllabary()[82] =~= seq!['c', 'h', 'u']);
            assert(syllabary_spec()[82] == rename_token(raw_syllabary()[82]));
            assert(raw_syllabary()[82] != "si"@) by {
                assert(tok_code(seq!['c', 'h', 'u']) != tok_code("si"@));
            }
            assert(raw_syllabary()[82] != "ti"@) by {
                assert(tok_code(seq!['c', 'h', 'u']) != tok_code("ti"@));
            }
            assert(raw_syllabary()[82] != "tu"@) by {
                assert(tok_code(seq!['c', 'h', 'u']) != tok_code("tu"@));
            }
            assert(raw_syllabary()[82] != "hu"@) by {
                assert(tok_code(seq!['c', 'h', 'u']) != tok_code("hu"@));
            }
            assert(raw_syllabary()[82] != "zi"@) by {
                assert(tok_code(seq!['c', 'h', 'u']) != tok_code("zi"@));
            }
            assert(rename_token(raw_syllabary()[82]) == raw_syllabary()[82]);
            assert(syllabary_spec()[82] =~= syllabary_literal()[82]);
        } else if j == 83 {
            crate::conv::lemma_cv_grid_entry(digraph_onsets(), digraph_vowels_order(), 2, 2);
            assert(pc[8] == digraph_onsets()[2].push(digraph_vowels_order()[2]));
            assert(raw_syllabary()[83] == pc[8]);
            assert(raw_syllabary()[83] =~= seq!['c', 'h', 'o']);
            assert(syllabary_spec()[83] == rename_token(raw_syllabary()[83]));
            assert(raw_syllabary()[83] != "si"@) by {
                assert(tok_code(seq!['c', 'h', 'o']) != tok_code("si"@));
            }
            assert(raw_syllabary()[83] != "ti"@) by {
                assert(tok_code(seq!['c', 'h', 'o']) != tok_code("ti"@));
            }
            assert(raw_syllabary()[83] != "tu"@) by {
                assert(tok_code(seq!['c', 'h', 'o']) != tok_code("tu"@));
            }
            assert(raw_syllabary()[83] != "hu"@) by {
                assert(tok_code(seq!['c', 'h', 'o']) != tok_code("hu"@));
            }
            assert(raw_syllabary()[83] != "zi"@) by {
                assert(tok_code(seq!['c', 'h', 'o']) != tok_code("zi"@));
            }
            assert(rename_token(raw_syllabary()[83]) == raw_syllabary()[83]);
            assert(syllabary_spec()[83] =~= syllabary_literal()[83]);
        } else if j == 84 {
            crate::conv::lemma_cv_grid_entry(digraph_onsets(), digraph_vowels_order(), 3, 0);
            assert(pc[9] == digraph_onsets()[3].push(digraph_vowels_order()[0]));
            assert(raw_syllabary()[84] == pc[9]);
            assert(raw_syllabary()[84] =~= seq!['n', 'q', 'a']);
            assert(syllabary_spec()[84] == rename_token(raw_syllabary()[84]));
            assert(raw_syllabary()[84] != "si"@) by {
                assert(tok_code(seq!['n', 'q', 'a']) != tok_code("si"@));
            }
            assert(raw_syllabary()[84] != "ti"@) by {
                assert(tok_code(seq!['n', 'q', 'a']) != tok_code("ti"@));
            }
            assert(raw_syllabary()[84] != "tu"@) by {
                assert(tok_code(seq!['n', 'q', 'a']) != tok_code("tu"@));
            }
            assert(raw_syllabary()[84] != "hu"@) by {
                assert(tok_code(seq!['n', 'q', 'a']) != tok_code("hu"@));
            }
            assert(raw_syllabary()[84] != "zi"@) by {
                assert(tok_code(seq!['n', 'q', 'a']) != tok_code("zi"@));
            }
            assert(rename_token(raw_syllabary()[84]) == raw_syllabary()[84]);
            assert(syllabary_spec()[84] =~= syllabary_literal()[84]);
        } else if j == 85 {
            crate::conv::lemma_cv_grid_entry(digraph_onsets(), digraph_vowels_order(), 3, 1);
            assert(pc[10] == digraph_onsets()[3].push(digraph_vowels_order()[1]));
            assert(raw_syllabary()[85] == pc[10]);
            assert(raw_syllabary()[85] =~= seq!['n', 'q', 'u']);
            assert(syllabary_spec()[85] == rename_token(raw_syllabary()[85]));
            assert(raw_syllabary()[85] != "si"@) by {
                assert(tok_code(seq!['n', 'q', 'u']) != tok_code("si"@));
            }
            assert(raw_syllabary()[85] != "ti"@) by {
                assert(tok_code(seq!['n', 'q', 'u']) != tok_code("ti"@));
            }
            assert(raw_syllabary()[85] != "tu"@) by {
                assert(tok_code(seq!['n', 'q', 'u']) != tok_code("tu"@));
            }
            assert(raw_syllabary()[85] != "hu"@) by {
                assert(tok_code(seq!['n', 'q', 'u']) != tok_code("hu"@));
            }
            assert(raw_syllabary()[85] != "zi"@) by {
                assert(tok_code(seq!['n', 'q', 'u']) != tok_code("zi"@));
            }
            assert(rename_token(raw_syllabary()[85]) == raw_syllabary()[85]);
            assert(syllabary_spec()[85] =~= syllabary_literal()[85]);
        } else if j == 86 {
            crate::conv::lemma_cv_grid_entry(digraph_onsets(), digraph_vowels_order(), 3, 2);
            assert(pc[11] == digraph_onsets()[3].push(digraph_vowels_order()[2]));
            assert(raw_syllabary()[86] == pc[11]);
            assert(raw_syllabary()[86] =~= seq!['n', 'q', 'o']);
            assert(syllabary_spec()[86] == rename_token(raw_syllabary()[86]));
            assert(raw_syllabary()[86] != "si"@) by {
                assert(tok_code(seq!['n', 'q', 'o']) != tok_code("si"@));
            }
            assert(raw_syllabary()[86] != "ti"@) by {
                assert(tok_code(seq!['n', 'q', 'o']) != tok_code("ti"@));
            }
            assert(raw_syllabary()[86] != "tu"@) by {
                assert(tok_code(seq!['n', 'q', 'o']) != tok_code("tu"@));
            }
            assert(raw_syllabary()[86] != "hu"@) by {
                assert(tok_code(seq!['n', 'q', 'o']) != tok_code("hu"@));
            }
            assert(raw_syllabary()[86] != "zi"@) by {
                assert(tok_code(seq!['n', 'q', 'o']) != tok_code("zi"@));
            }
            assert(rename_token(raw_syllabary()[86]) == raw_syllabary()[86]);
            assert(syllabary_spec()[86] =~= syllabary_literal()[86]);
        } else if j == 87 {
            crate::conv::lemma_cv_grid_entry(digraph_onsets(), digraph_vowels_order(), 4, 0);
            assert(pc[12] == digraph_onsets()[4].push(digraph_vowels_order()[0]));
            assert(raw_syllabary()[87] == pc[12]);
            assert(raw_syllabary()[87] =~= seq!['h', 'y', 'a']);
            assert(syllabary_spec()[87] == rename_token(raw_syllabary()[87]));
            assert(raw_syllabary()[87] != "si"@) by {
                assert(tok_code(seq!['h', 'y', 'a']) != tok_code("si"@));
            }
            assert(raw_syllabary()[87] != "ti"@) by {
                assert(tok_code(seq!['h', 'y', 'a']) != tok_code("ti"@));
            }
            assert(raw_syllabary()[87] != "tu"@) by {
                assert(tok_code(seq!['h', 'y', 'a']) != tok_code("tu"@));
            }
            assert(raw_syllabary()[87] != "hu"@) by {
                assert(tok_code(seq!['h', 'y', 'a']) != tok_code("hu"@));
            }
            assert(raw_syllabary()[87] != "zi"@) by {
                assert(tok_code(seq!['h', 'y', 'a']) != tok_code("zi"@));
            }
            assert(rename_token(raw_syllabary()[87]) == raw_syllabary()[87]);
            assert(syllabary_spec()[87] =~= syllabary_literal()[87]);
        } else if j == 88 {
            crate::conv::lemma_cv_grid_entry(digraph_onsets(), digraph_vowels_order(), 4, 1);
            assert(pc[13] == digraph_onsets()[4].push(digraph_vowels_order()[1]));
            assert(raw_syllabary()[88] == pc[13]);
            assert(raw_syllabary()[88] =~= seq!['h', 'y', 'u']);
            assert(syllabary_spec()[88] == rename_token(raw_syllabary()[88]));
            assert(raw_syllabary()[88] != "si"@) by {
                assert(tok_code(seq!['h', 'y', 'u']) != tok_code("si"@));
            }
            assert(raw_syllabary()[88] != "ti"@) by {
                assert(tok_code(seq!['h', 'y', 'u']) != tok_code("ti"@));
            }
            assert(raw_syllabary()[88] != "tu"@) by {
                assert(tok_code(seq!['h', 'y', 'u']) != tok_code("tu"@));
            }
            assert(raw_syllabary()[88] != "hu"@) by {
                assert(tok_code(seq!['h', 'y', 'u']) != tok_code("hu"@));
            }
            assert(raw_syllabary()[88] != "zi"@) by {
                assert(tok_code(seq!['h', 'y', 'u']) != tok_code("zi"@));
            }
            assert(rename_token(raw_syllabary()[88]) == raw_syllabary()[88]);
            assert(syllabary_spec()[88] =~= syllabary_literal()[88]);
        } else if j == 89 {
            crate::conv::lemma_cv_grid_entry(digraph_onsets(), digraph_vowels_order(), 4, 2);
            assert(pc[14] == digraph_onsets()[4].push(digraph_vowels_order()[2]));
            assert(raw_syllabary()[89] == pc[14]);
            assert(raw_syllabary()[89] =~= seq!['h', 'y', 'o']);
            assert(syllabary_spec()[89] == rename_token(raw_syllabary()[89]));
            assert(raw_syllabary()[89] != "si"@) by {
                assert(tok_code(seq!['h', 'y', 'o']) != tok_code("si"@));
            }
            assert(raw_syllabary()[89] != "ti"@) by {
                assert(tok_code(seq!['h', 'y', 'o']) != tok_code("ti"@));
            }
            assert(raw_syllabary()[89] != "tu"@) by {
                assert(tok_code(seq!['h', 'y', 'o']) != tok_code("tu"@));
            }
            assert(raw_syllabary()[89] != "hu"@) by {
                assert(tok_code(seq!['h', 'y', 'o']) != tok_code("hu"@));
            }
            assert(raw_syllabary()[89] != "zi"@) by {
                assert(tok_code(seq!['h', 'y', 'o']) != tok_code("zi"@));
            }
            assert(rename_token(raw_syllabary()[89]) == raw_syllabary()[89]);
            assert(syllabary_spec()[89] =~= syllabary_literal()[89]);
        } else {
        }
    }
}

proof fn syllabary_literal_part_90_100()
    ensures
        forall|j: int| 90 <= j < 100 ==> syllabary_spec()[j] == syllabary_literal()[j],
{
    reveal_strlit("si");
    reveal_strlit("shi");
    reveal_strlit("ti");
    reveal_strlit("chi");
    reveal_strlit("tu");
    reveal_strlit("tsu");
    reveal_strlit("hu");
    reveal_strlit("fu");
    reveal_strlit("zi");
    reveal_strlit("ji");
    reveal_strlit("ky");
    reveal_strlit("sh");
    reveal_strlit("ch");
    reveal_strlit("nq");
    reveal_strlit("hy");
    reveal_strlit("my");
    reveal_strlit("ry");
    reveal_strlit("gy");
    reveal_strlit("j");
    reveal_strlit("by");
    reveal_strlit("py");
    lemma_syllabary_len();
    lemma_cv_row_len(Seq::<char>::empty(), vowels_order());
    lemma_cv_grid_len(consonant_onsets(), vowels_order());
    lemma_cv_grid_len(digraph_onsets(), digraph_vowels_order());
    assert forall|j: int| 90 <= j < 100 implies syllabary_spec()[j] == syllabary_literal()[j] by {
        let pa = cv_row(Seq::<char>::empty(), vowels_order());
        let pb = cv_grid(consonant_onsets(), vowels_order());
        let pc = cv_grid(digraph_onsets(), digraph_vowels_order());
        let pd = seq!["n"@, "G"@, "je"@];
        assert(pa.len() == 5);
        assert(consonant_onsets().len() == 14 && vowels_order().len() == 5);
        assert(pb.len() == 14 * 5);
        assert(digraph_onsets().len() == 11 && digraph_vowels_order().len() == 3);
        assert(pc.len() == 11 * 3);
        assert(raw_syllabary() == pa + pb + pc + pd);
        if j == 90 {
            crate::conv::lemma_cv_grid_entry(digraph_onsets(), digraph_vowels_order(), 5, 0);
            assert(pc[15] == digraph_onsets()[5].push(digraph_vowels_order()[0]));
            assert(raw_syllabary()[90] == pc[15]);
            assert(raw_syllabary()[90] =~= seq!['m', 'y', 'a']);
            assert(syllabary_spec()[90] == rename_token(raw_syllabary()[90]));
            assert(raw_syllabary()[90] != "si"@) by {
                assert(tok_code(seq!['m', 'y', 'a']) != tok_code("si"@));
            }
            assert(raw_syllabary()[90] != "ti"@) by {
                assert(tok_code(seq!['m', 'y', 'a']) != tok_code("ti"@));
            }
            assert(raw_syllabary()[90] != "tu"@) by {
                assert(tok_code(seq!['m', 'y', 'a']) != tok_code("tu"@));
            }
            assert(raw_syllabary()[90] != "hu"@) by {
                assert(tok_code(seq!['m', 'y', 'a']) != tok_code("hu"@));
            }
            assert(raw_syllabary()[90] != "zi"@) by {
                assert(tok_code(seq!['m', 'y', 'a']) != tok_code("zi"@));
            }
            assert(rename_token(raw_syllabary()[90]) == raw_syllabary()[90]);
            assert(syllabary_spec()[90] =~= syllabary_literal()[90]);
        } else if j == 91 {
            crate::conv::lemma_cv_grid_entry(digraph_onsets(), digraph_vowels_order(), 5, 1);
            assert(pc[16] == digraph_onsets()[5].push(digraph_vowels_order()[1]));
            assert(raw_syllabary()[91] == pc[16]);
            assert(raw_syllabary()[91] =~= seq!['m', 'y', 'u']);
            assert(syllabary_spec()[91] == rename_token(raw_syllabary()[91]));
            assert(raw_syllabary()[91] != "si"@) by {
                assert(tok_code(seq!['m', 'y', 'u']) != tok_code("si"@));
            }
            assert(raw_syllabary()[91] != "ti"@) by {
                assert(tok_code(seq!['m', 'y', 'u']) != tok_code("ti"@));
            }
            assert(raw_syllabary()[91] != "tu"@) by {
                assert(tok_code(seq!['m', 'y', 'u']) != tok_code("tu"@));
            }
            assert(raw_syllabary()[91] != "hu"@) by {
                assert(tok_code(seq!['m', 'y', 'u']) != tok_code("hu"@));
            }
            assert(raw_syllabary()[91] != "zi"@) by {
                assert(tok_code(seq!['m', 'y', 'u']) != tok_code("zi"@));
            }
            assert(rename_token(raw_syllabary()[91]) == raw_syllabary()[91]);
            assert(syllabary_spec()[91] =~= syllabary_literal()[91]);
        } else if j == 92 {
            crate::conv::lemma_cv_grid_entry(digraph_onsets(), digraph_vowels_order(), 5, 2);
            assert(pc[17] == digraph_onsets()[5].push(digraph_vowels_order()[2]));
            assert(raw_syllabary()[92] == pc[17]);
            assert(raw_syllabary()[92] =~= seq!['m', 'y', 'o']);
            assert(syllabary_spec()[92] == rename_token(raw_syllabary()[92]));
            assert(raw_syllabary()[92] != "si"@) by {
                assert(tok_code(seq!['m', 'y', 'o']) != tok_code("si"@));
            }
            assert(raw_syllabary()[92] != "ti"@) by {
                assert(tok_code(seq!['m', 'y', 'o']) != tok_code("ti"@));
            }
            assert(raw_syllabary()[92] != "tu"@) by {
                assert(tok_code(seq!['m', 'y', 'o']) != tok_code("tu"@));
            }
            assert(raw_syllabary()[92] != "hu"@) by {
                assert(tok_code(seq!['m', 'y', 'o']) != tok_code("hu"@));
            }
            assert(raw_syllabary()[92] != "zi"@) by {
                assert(tok_code(seq!['m', 'y', 'o']) != tok_code("zi"@));
            }
            assert(rename_token(raw_syllabary()[92]) == raw_syllabary()[92]);
            assert(syllabary_spec()[92] =~= syllabary_literal()[92]);
        } else if j == 93 {
            crate::conv::lemma_cv_grid_entry(digraph_onsets(), digraph_vowels_order(), 6, 0);
            assert(pc[18] == digraph_onsets()[6].push(digraph_vowels_order()[0]));
            assert(raw_syllabary()[93] == pc[18]);
            assert(raw_syllabary()[93] =~= seq!['r', 'y', 'a']);
            assert(syllabary_spec()[93] == rename_token(raw_syllabary()[93]));
            assert(raw_syllabary()[93] != "si"@) by {
                assert(tok_code(seq!['r', 'y', 'a']) != tok_code("si"@));
            }
            assert(raw_syllabary()[93] != "ti"@) by {
                assert(tok_code(seq!['r', 'y', 'a']) != tok_code("ti"@));
            }
            assert(raw_syllabary()[93] != "tu"@) by {
                assert(tok_code(seq!['r', 'y', 'a']) != tok_code("tu"@));
            }
            assert(raw_syllabary()[93] != "hu"@) by {
                assert(tok_code(seq!['r', 'y', 'a']) != tok_code("hu"@));
            }
            assert(raw_syllabary()[93] != "zi"@) by {
                assert(tok_code(seq!['r', 'y', 'a']) != tok_code("zi"@));
            }
            assert(rename_token(raw_syllabary()[93]) == raw_syllabary()[93]);
            assert(syllabary_spec()[93] =~= syllabary_literal()[93]);
        } else if j == 94 {
            crate::conv::lemma_cv_grid_entry(digraph_onsets(), digraph_vowels_order(), 6, 1);
            assert(pc[19] == digraph_onsets()[6].push(digraph_vowels_order()[1]));
            assert(raw_syllabary()[94] == pc[19]);
            assert(raw_syllabary()[94] =~= seq!['r', 'y', 'u']);
            assert(syllabary_spec()[94] == rename_token(raw_syllabary()[94]));
            assert(raw_syllabary()[94] != "si"@) by {
                assert(tok_code(seq!['r', 'y', 'u']) != tok_code("si"@));
            }
            assert(raw_syllabary()[94] != "ti"@) by {
                assert(tok_code(seq!['r', 'y', 'u']) != tok_code("ti"@));
            }
            assert(raw_syllabary()[94] != "tu"@) by {
                assert(tok_code(seq!['r', 'y', 'u']) != tok_code("tu"@));
            }
            assert(raw_syllabary()[94] != "hu"@) by {
                assert(tok_code(seq!['r', 'y', 'u']) != tok_code("hu"@));
            }
            assert(raw_syllabary()[94] != "zi"@) by {
                assert(tok_code(seq!['r', 'y', 'u']) != tok_code("zi"@));
            }
            assert(rename_token(raw_syllabary()[94]) == raw_syllabary()[94]);
            assert(syllabary_spec()[94] =~= syllabary_literal()[94]);
        } else if j == 95 {
            crate::conv::lemma_cv_grid_entry(digraph_onsets(), digraph_vowels_order(), 6, 2);
            assert(pc[20] == digraph_onsets()[6].push(digraph_vowels_order()[2]));
            assert(raw_syllabary()[95] == pc[20]);
            assert(raw_syllabary()[95] =~= seq!['r', 'y', 'o']);
            assert(syllabary_spec()[95] == rename_token(raw_syllabary()[95]));
            assert(raw_syllabary()[95] != "si"@) by {
                assert(tok_code(seq!['r', 'y', 'o']) != tok_code("si"@));
            }
            assert(raw_syllabary()[95] != "ti"@) by {
                assert(tok_code(seq!['r', 'y', 'o']) != tok_code("ti"@));
            }
            assert(raw_syllabary()[95] != "tu"@) by {
                assert(tok_code(seq!['r', 'y', 'o']) != tok_code("tu"@));
            }
            assert(raw_syllabary()[95] != "hu"@) by {
                assert(tok_code(seq!['r', 'y', 'o']) != tok_code("hu"@));
            }
            assert(raw_syllabary()[95] != "zi"@) by {
                assert(tok_code(seq!['r', 'y', 'o']) != tok_code("zi"@));
            }
            assert(rename_token(raw_syllabary()[95]) == raw_syllabary()[95]);
            assert(syllabary_spec()[95] =~= syllabary_literal()[95]);
        } else if j == 96 {
            crate::conv::lemma_cv_grid_entry(digraph_onsets(), digraph_vowels_order(), 7, 0);
            assert(pc[21] == digraph_onsets()[7].push(digraph_vowels_order()[0]));
            assert(raw_syllabary()[96] == pc[21]);
            assert(raw_syllabary()[96] =~= seq!['g', 'y', 'a']);
            assert(syllabary_spec()[96] == rename_token(raw_syllabary()[96]));
            assert(raw_syllabary()[96] != "si"@) by {
                assert(tok_code(seq!['g', 'y', 'a']) != tok_code("si"@));
            }
            assert(raw_syllabary()[96] != "ti"@) by {
                assert(tok_code(seq!['g', 'y', 'a']) != tok_code("ti"@));
            }
            assert(raw_syllabary()[96] != "tu"@) by {
                assert(tok_code(seq!['g', 'y', 'a']) != tok_code("tu"@));
            }
            assert(raw_syllabary()[96] != "hu"@) by {
                assert(tok_code(seq!['g', 'y', 'a']) != tok_code("hu"@));
            }
            assert(raw_syllabary()[96] != "zi"@) by {
                assert(tok_code(seq!['g', 'y', 'a']) != tok_code("zi"@));
            }
            assert(rename_token(raw_syllabary()[96]) == raw_syllabary()[96]);
            assert(syllabary_spec()[96] =~= syllabary_literal()[96]);
        } else if j == 97 {
            crate::conv::lemma_cv_grid_entry(digraph_onsets(), digraph_vowels_order(), 7, 1);
            assert(pc[22] == digraph_onsets()[7].push(digraph_vowels_order()[1]));
            assert(raw_syllabary()[97] == pc[22]);
            assert(raw_syllabary()[97] =~= seq!['g', 'y', 'u']);
            assert(syllabary_spec()[97] == rename_token(raw_syllabary()[97]));
            assert(raw_syllabary()[97] != "si"@) by {
                assert(tok_code(seq!['g', 'y', 'u']) != tok_code("si"@));
            }
            assert(raw_syllabary()[97] != "ti"@) by {
                assert(tok_code(seq!['g', 'y', 'u']) != tok_code("ti"@));
            }
            assert(raw_syllabary()[97] != "tu"@) by {
                assert(tok_code(seq!['g', 'y', 'u']) != tok_code("tu"@));
            }
            assert(raw_syllabary()[97] != "hu"@) by {
                assert(tok_code(seq!['g', 'y', 'u']) != tok_code("hu"@));
            }
            assert(raw_syllabary()[97] != "zi"@) by {
                assert(tok_code(seq!['g', 'y', 'u']) != tok_code("zi"@));
            }
            assert(rename_token(raw_syllabary()[97]) == raw_syllabary()[97]);
            assert(syllabary_spec()[97] =~= syllabary_literal()[97]);
        } else if j == 98 {
            crate::conv::lemma_cv_grid_entry(digraph_onsets(), digraph_vowels_order(), 7, 2);
            assert(pc[23] == digraph_onsets()[7].push(digraph_vowels_order()[2]));
            assert(raw_syllabary()[98] == pc[23]);
            assert(raw_syllabary()[98] =~= seq!['g', 'y', 'o']);
            assert(syllabary_spec()[98] == rename_token(raw_syllabary()[98]));
            assert(raw_syllabary()[98] != "si"@) by {
                assert(tok_code(seq!['g', 'y', 'o']) != tok_code("si"@));
            }
            assert(raw_syllabary()[98] != "ti"@) by {
                assert(tok_code(seq!['g', 'y', 'o']) != tok_code("ti"@));
            }
            assert(raw_syllabary()[98] != "tu"@) by {
                assert(tok_code(seq!['g', 'y', 'o']) != tok_code("tu"@));
            }
            assert(raw_syllabary()[98] != "hu"@) by {
                assert(tok_code(seq!['g', 'y', 'o']) != tok_code("hu"@));
            }
            assert(raw_syllabary()[98] != "zi"@) by {
                assert(tok_code(seq!['g', 'y', 'o']) != tok_code("zi"@));
            }
            assert(rename_token(raw_syllabary()[98]) == raw_syllabary()[98]);
            assert(syllabary_spec()[98] =~= syllabary_literal()[98]);
        } else if j == 99 {
            crate::conv::lemma_cv_grid_entry(digraph_onsets(), digraph_vowels_order(), 8, 0);
            assert(pc[24] == digraph_onsets()[8].push(digraph_vowels_order()[0]));
            assert(raw_syllabary()[99] == pc[24]);
            assert(raw_syllabary()[99] =~= seq!['j', 'a']);
            assert(syllabary_spec()[99] == rename_token(raw_syllabary()[99]));
            assert(raw_syllabary()[99] != "si"@) by {
                assert(tok_code(seq!['j', 'a']) != tok_code("si"@));
            }
            assert(raw_syllabary()[99] != "ti"@) by {
                assert(tok_code(seq!['j', 'a']) != tok_code("ti"@));
            }
            assert(raw_syllabary()[99] != "tu"@) by {
                assert(tok_code(seq!['j', 'a']) != tok_code("tu"@));
            }
            assert(raw_syllabary()[99] != "hu"@) by {
                assert(tok_code(seq!['j', 'a']) != tok_code("hu"@));
            }
            assert(raw_syllabary()[99] != "zi"@) by {
                assert(tok_code(seq!['j', 'a']) != tok_code("zi"@));
            }
            assert(rename_token(raw_syllabary()[99]) == raw_syllabary()[99]);
            assert(syllabary_spec()[99] =~= syllabary_literal()[99]);
        } else {
        }
    }
}

proof fn syllabary_literal_part_100_110()
    ensures
        forall|j: int| 100 <= j < 110 ==> syllabary_spec()[j] == syllabary_literal()[j],
{
    reveal_strlit("si");
    reveal_strlit("shi");
    reveal_strlit("ti");
    reveal_strlit("chi");
    reveal_strlit("tu");
    reveal_strlit("tsu");
    reveal_strlit("hu");
    reveal_strlit("fu");
    reveal_strlit("zi");
    reveal_strlit("ji");
    reveal_strlit("ky");
    reveal_strlit("sh");
    reveal_strlit("ch");
    reveal_strlit("nq");
    reveal_strlit("hy");
    reveal_strlit("my");
    reveal_strlit("ry");
    reveal_strlit("gy");
    reveal_strlit("j");
    reveal_strlit("by");
    reveal_strlit("py");
    reveal_strlit("n");
    reveal_strlit("G");
    reveal_strlit("je");
    lemma_syllabary_len();
    lemma_cv_row_len(Seq::<char>::empty(), vowels_order());
    lemma_cv_grid_len(consonant_onsets(), vowels_order());
    lemma_cv_grid_len(digraph_onsets(), digraph_vowels_order());
    assert forall|j: int| 100 <= j < 110 implies syllabary_spec()[j] == syllabary_literal()[j] by {
        let pa = cv_row(Seq::<char>::empty(), vowels_order());
        let pb = cv_grid(consonant_onsets(), vowels_order());
        let pc = cv_grid(digraph_onsets(), digraph_vowels_order());
        let pd = seq!["n"@, "G"@, "je"@];
        assert(pa.len() == 5);
        assert(consonant_onsets().len() == 14 && vowels_order().len() == 5);
        assert(pb.len() == 14 * 5);
        assert(digraph_onsets().len() == 11 && digraph_vowels_order().len() == 3);
        assert(pc.len() == 11 * 3);
        assert(raw_syllabary() == pa + pb + pc + pd);
        if j == 100 {
            crate::conv::lemma_cv_grid_entry(digraph_onsets(), digraph_vowels_order(), 8, 1);
            assert(pc[25] == digraph_onsets()[8].push(digraph_vowels_order()[1]));
            assert(raw_syllabary()[100] == pc[25]);
            assert(raw_syllabary()[100] =~= seq!['j', 'u']);
            assert(syllabary_spec()[100] == rename_token(raw_syllabary()[100]));
            assert(raw_syllabary()[100] != "si"@) by {
                assert(tok_code(seq!['j', 'u']) != tok_code("si"@));
            }
            assert(raw_syllabary()[100] != "ti"@) by {
                assert(tok_code(seq!['j', 'u']) != tok_code("ti"@));
            }
            assert(raw_syllabary()[100] != "tu"@) by {
                assert(tok_code(seq!['j', 'u']) != tok_code("tu"@));
            }
            assert(raw_syllabary()[100] != "hu"@) by {
                assert(tok_code(seq!['j', 'u']) != tok_code("hu"@));
            }
            assert(raw_syllabary()[100] != "zi"@) by {
                assert(tok_code(seq!['j', 'u']) != tok_code("zi"@));
            }
            assert(rename_token(raw_syllabary()[100]) == raw_syllabary()[100]);
            assert(syllabary_spec()[100] =~= syllabary_literal()[100]);
        } else if j == 101 {
            crate::conv::lemma_cv_grid_entry(digraph_onsets(), digraph_vowels_order(), 8, 2);
            assert(pc[26] == digraph_onsets()[8].push(digraph_vowels_order()[2]));
            assert(raw_syllabary()[101] == pc[26]);
            assert(raw_syllabary()[101] =~= seq!['j', 'o']);
            assert(syllabary_spec()[101] == rename_token(raw_syllabary()[101]));
            assert(raw_syllabary()[101] != "si"@) by {
                assert(tok_code(seq!['j', 'o']) != tok_code("si"@));
            }
            assert(raw_syllabary()[101] != "ti"@) by {
                assert(tok_code(seq!['j', 'o']) != tok_code("ti"@));
            }
            assert(raw_syllabary()[101] != "tu"@) by {
                assert(tok_code(seq!['j', 'o']) != tok_code("tu"@));
            }
            assert(raw_syllabary()[101] != "hu"@) by {
                assert(tok_code(seq!['j', 'o']) != tok_code("hu"@));
            }
            assert(raw_syllabary()[101] != "zi"@) by {
                assert(tok_code(seq!['j', 'o']) != tok_code("zi"@));
            }
            assert(rename_token(raw_syllabary()[101]) == raw_syllabary()[101]);
            assert(syllabary_spec()[101] =~= syllabary_literal()[101]);
        } else if j == 102 {
            crate::conv::lemma_cv_grid_entry(digraph_onsets(), digraph_vowels_order(), 9, 0);
            assert(pc[27] == digraph_onsets()[9].push(digraph_vowels_order()[0]));
            assert(raw_syllabary()[102] == pc[27]);
            assert(raw_syllabary()[102] =~= seq!['b', 'y', 'a']);
            assert(syllabary_spec()[102] == rename_token(raw_syllabary()[102]));
            assert(raw_syllabary()[102] != "si"@) by {
                assert(tok_code(seq!['b', 'y', 'a']) != tok_code("si"@));
            }
            assert(raw_syllabary()[102] != "ti"@) by {
                assert(tok_code(seq!['b', 'y', 'a']) != tok_code("ti"@));
            }
            assert(raw_syllabary()[102] != "tu"@) by {
                assert(tok_code(seq!['b', 'y', 'a']) != tok_code("tu"@));
            }
            assert(raw_syllabary()[102] != "hu"@) by {
                assert(tok_code(seq!['b', 'y', 'a']) != tok_code("hu"@));
            }
            assert(raw_syllabary()[102] != "zi"@) by {
                assert(tok_code(seq!['b', 'y', 'a']) != tok_code("zi"@));
            }
            assert(rename_token(raw_syllabary()[102]) == raw_syllabary()[102]);
            assert(syllabary_spec()[102] =~= syllabary_literal()[102]);
        } else if j == 103 {
            crate::conv::lemma_cv_grid_entry(digraph_onsets(), digraph_vowels_order(), 9, 1);
            assert(pc[28] == digraph_onsets()[9].push(digraph_vowels_order()[1]));
            assert(raw_syllabary()[103] == pc[28]);
            assert(raw_syllabary()[103] =~= seq!['b', 'y', 'u']);
            assert(syllabary_spec()[103] == rename_token(raw_syllabary()[103]));
            assert(raw_syllabary()[103] != "si"@) by {
                assert(tok_code(seq!['b', 'y', 'u']) != tok_code("si"@));
            }
            assert(raw_syllabary()[103] != "ti"@) by {
                assert(tok_code(seq!['b', 'y', 'u']) != tok_code("ti"@));
            }
            assert(raw_syllabary()[103] != "tu"@) by {
                assert(tok_code(seq!['b', 'y', 'u']) != tok_code("tu"@));
            }
            assert(raw_syllabary()[103] != "hu"@) by {
                assert(tok_code(seq!['b', 'y', 'u']) != tok_code("hu"@));
            }
            assert(raw_syllabary()[103] != "zi"@) by {
                assert(tok_code(seq!['b', 'y', 'u']) != tok_code("zi"@));
            }
            assert(rename_token(raw_syllabary()[103]) == raw_syllabary()[103]);
            assert(syllabary_spec()[103] =~= syllabary_literal()[103]);
        } else if j == 104 {
            crate::conv::lemma_cv_grid_entry(digraph_onsets(), digraph_vowels_order(), 9, 2);
            assert(pc[29] == digraph_onsets()[9].push(digraph_vowels_order()[2]));
            assert(raw_syllabary()[104] == pc[29]);
            assert(raw_syllabary()[104] =~= seq!['b', 'y', 'o']);
            assert(syllabary_spec()[104] == rename_token(raw_syllabary()[104]));
            assert(raw_syllabary()[104] != "si"@) by {
                assert(tok_code(seq!['b', 'y', 'o']) != tok_code("si"@));
            }
            assert(raw_syllabary()[104] != "ti"@) by {
                assert(tok_code(seq!['b', 'y', 'o']) != tok_code("ti"@));
            }
            assert(raw_syllabary()[104] != "tu"@) by {
                assert(tok_code(seq!['b', 'y', 'o']) != tok_code("tu"@));
            }
            assert(raw_syllabary()[104] != "hu"@) by {
                assert(tok_code(seq!['b', 'y', 'o']) != tok_code("hu"@));
            }
            assert(raw_syllabary()[104] != "zi"@) by {
                assert(tok_code(seq!['b', 'y', 'o']) != tok_code("zi"@));
            }
            assert(rename_token(raw_syllabary()[104]) == raw_syllabary()[104]);
            assert(syllabary_spec()[104] =~= syllabary_literal()[104]);
        } else if j == 105 {
            crate::conv::lemma_cv_grid_entry(digraph_onsets(), digraph_vowels_order(), 10, 0);
            assert(pc[30] == digraph_onsets()[10].push(digraph_vowels_order()[0]));
            assert(raw_syllabary()[105] == pc[30]);
            assert(raw_syllabary()[105] =~= seq!['p', 'y', 'a']);
            assert(syllabary_spec()[105] == rename_token(raw_syllabary()[105]));
            assert(raw_syllabary()[105] != "si"@) by {
                assert(tok_code(seq!['p', 'y', 'a']) != tok_code("si"@));
            }
            assert(raw_syllabary()[105] != "ti"@) by {
                assert(tok_code(seq!['p', 'y', 'a']) != tok_code("ti"@));
            }
            assert(raw_syllabary()[105] != "tu"@) by {
                assert(tok_code(seq!['p', 'y', 'a']) != tok_code("tu"@));
            }
            assert(raw_syllabary()[105] != "hu"@) by {
                assert(tok_code(seq!['p', 'y', 'a']) != tok_code("hu"@));
            }
            assert(raw_syllabary()[105] != "zi"@) by {
                assert(tok_code(seq!['p', 'y', 'a']) != tok_code("zi"@));
            }
            assert(rename_token(raw_syllabary()[105]) == raw_syllabary()[105]);
            assert(syllabary_spec()[105] =~= syllabary_literal()[105]);
        } else if j == 106 {
            crate::conv::lemma_cv_grid_entry(digraph_onsets(), digraph_vowels_order(), 10, 1);
            assert(pc[31] == digraph_onsets()[10].push(digraph_vowels_order()[1]));
            assert(raw_syllabary()[106] == pc[31]);
            assert(raw_syllabary()[106] =~= seq!['p', 'y', 'u']);
            assert(syllabary_spec()[106] == rename_token(raw_syllabary()[106]));
            assert(raw_syllabary()[106] != "si"@) by {
                assert(tok_code(seq!['p', 'y', 'u']) != tok_code("si"@));
            }
            assert(raw_syllabary()[106] != "ti"@) by {
                assert(tok_code(seq!['p', 'y', 'u']) != tok_code("ti"@));
            }
            assert(raw_syllabary()[106] != "tu"@) by {
                assert(tok_code(seq!['p', 'y', 'u']) != tok_code("tu"@));
            }
            assert(raw_syllabary()[106] != "hu"@) by {
                assert(tok_code(seq!['p', 'y', 'u']) != tok_code("hu"@));
            }
            assert(raw_syllabary()[106] != "zi"@) by {
                assert(tok_code(seq!['p', 'y', 'u']) != tok_code("zi"@));
            }
            assert(rename_token(raw_syllabary()[106]) == raw_syllabary()[106]);
            assert(syllabary_spec()[106] =~= syllabary_literal()[106]);
        } else if j == 107 {
            crate::conv::lemma_cv_grid_entry(digraph_onsets(), digraph_vowels_order(), 10, 2);
            assert(pc[32] == digraph_onsets()[10].push(digraph_vowels_order()[2]));
            assert(raw_syllabary()[107] == pc[32]);
            assert(raw_syllabary()[107] =~= seq!['p', 'y', 'o']);
            assert(syllabary_spec()[107] == rename_token(raw_syllabary()[107]));
            assert(raw_syllabary()[107] != "si"@) by {
                assert(tok_code(seq!['p', 'y', 'o']) != tok_code("si"@));
            }
            assert(raw_syllabary()[107] != "ti"@) by {
                assert(tok_code(seq!['p', 'y', 'o']) != tok_code("ti"@));
            }
            assert(raw_syllabary()[107] != "tu"@) by {
                assert(tok_code(seq!['p', 'y', 'o']) != tok_code("tu"@));
            }
            assert(raw_syllabary()[107] != "hu"@) by {
                assert(tok_code(seq!['p', 'y', 'o']) != tok_code("hu"@));
            }
            assert(raw_syllabary()[107] != "zi"@) by {
                assert(tok_code(seq!['p', 'y', 'o']) != tok_code("zi"@));
            }
            assert(rename_token(raw_syllabary()[107]) == raw_syllabary()[107]);
            assert(syllabary_spec()[107] =~= syllabary_literal()[107]);
        } else if j == 108 {
            assert(raw_syllabary()[108] == pd[0]);
            assert(raw_syllabary()[108] =~= seq!['n']);
            assert(syllabary_spec()[108] == rename_token(raw_syllabary()[108]));
            assert(raw_syllabary()[108] != "si"@) by {
                assert(tok_code(seq!['n']) != tok_code("si"@));
            }
            assert(raw_syllabary()[108] != "ti"@) by {
                assert(tok_code(seq!['n']) != tok_code("ti"@));
            }
            assert(raw_syllabary()[108] != "tu"@) by {
                assert(tok_code(seq!['n']) != tok_code("tu"@));
            }
            assert(raw_syllabary()[108] != "hu"@) by {
                assert(tok_code(seq!['n']) != tok_code("hu"@));
            }
            assert(raw_syllabary()[108] != "zi"@) by {
                assert(tok_code(seq!['n']) != tok_code("zi"@));
            }
            assert(rename_token(raw_syllabary()[108]) == raw_syllabary()[108]);
            assert(syllabary_spec()[108] =~= syllabary_literal()[108]);
        } else if j == 109 {
            assert(raw_syllabary()[109] == pd[1]);
            assert(raw_syllabary()[109] =~= seq!['G']);
            assert(syllabary_spec()[109] == rename_token(raw_syllabary()[109]));
            assert(raw_syllabary()[109] != "si"@) by {
                assert(tok_code(seq!['G']) != tok_code("si"@));
            }
            assert(raw_syllabary()[109] != "ti"@) by {
                assert(tok_code(seq!['G']) != tok_code("ti"@));
            }
            assert(raw_syllabary()[109] != "tu"@) by {
                assert(tok_code(seq!['G']) != tok_code("tu"@));
            }
            assert(raw_syllabary()[109] != "hu"@) by {
                assert(tok_code(seq!['G']) != tok_code("hu"@));
            }
            assert(raw_syllabary()[109] != "zi"@) by {
                assert(tok_code(seq!['G']) != tok_code("zi"@));
            }
            assert(rename_token(raw_syllabary()[109]) == raw_syllabary()[109]);
            assert(syllabary_spec()[109] =~= syllabary_literal()[109]);
        } else {
        }
    }
}

proof fn syllabary_literal_part_110_111()
    ensures
        forall|j: int| 110 <= j < 111 ==> syllabary_spec()[j] == syllabary_literal()[j],
{
    reveal_strlit("si");
    reveal_strlit("shi");
    reveal_strlit("ti");
    reveal_strlit("chi");
    reveal_strlit("tu");
    reveal_strlit("tsu");
    reveal_strlit("hu");
    reveal_strlit("fu");
    reveal_strlit("zi");
    reveal_strlit("ji");
    reveal_strlit("ky");
    reveal_strlit("sh");
    reveal_strlit("ch");
    reveal_strlit("nq");
    reveal_strlit("hy");
    reveal_strlit("my");
    reveal_strlit("ry");
    reveal_strlit("gy");
    reveal_strlit("j");
    reveal_strlit("by");
    reveal_strlit("py");
    reveal_strlit("n");
    reveal_strlit("G");
    reveal_strlit("je");
    lemma_syllabary_len();
    lemma_cv_row_len(Seq::<char>::empty(), vowels_order());
    lemma_cv_grid_len(consonant_onsets(), vowels_order());
    lemma_cv_grid_len(digraph_onsets(), digraph_vowels_order());
    assert forall|j: int| 110 <= j < 111 implies syllabary_spec()[j] == syllabary_literal()[j] by {
        let pa = cv_row(Seq::<char>::empty(), vowels_order());
        let pb = cv_grid(consonant_onsets(), vowels_order());
        let pc = cv_grid(digraph_onsets(), digraph_vowels_order());
        let pd = seq!["n"@, "G"@, "je"@];
        assert(pa.len() == 5);
        assert(consonant_onsets().len() == 14 && vowels_order().len() == 5);
        assert(pb.len() == 14 * 5);
        assert(digraph_onsets().len() == 11 && digraph_vowels_order().len() == 3);
        assert(pc.len() == 11 * 3);
        assert(raw_syllabary() == pa + pb + pc + pd);
        if j == 110 {
            assert(raw_syllabary()[110] == pd[2]);
            assert(raw_syllabary()[110] =~= seq!['j', 'e']);
            assert(syllabary_spec()[110] == rename_token(raw_syllabary()[110]));
            assert(raw_syllabary()[110] != "si"@) by {
                assert(tok_code(seq!['j', 'e']) != tok_code("si"@));
            }
            assert(raw_syllabary()[110] != "ti"@) by {
                assert(tok_code(seq!['j', 'e']) != tok_code("ti"@));
            }
            assert(raw_syllabary()[110] != "tu"@) by {
                assert(tok_code(seq!['j', 'e']) != tok_code("tu"@));
            }
            assert(raw_syllabary()[110] != "hu"@) by {
                assert(tok_code(seq!['j', 'e']) != tok_code("hu"@));
            }
            assert(raw_syllabary()[110] != "zi"@) by {
                assert(tok_code(seq!['j', 'e']) != tok_code("zi"@));
            }
            assert(rename_token(raw_syllabary()[110]) == raw_syllabary()[110]);
            assert(syllabary_spec()[110] =~= syllabary_literal()[110]);
        } else {
        }
    }
}

/// The generated syllabary equals its written-out form.
pub proof fn lemma_syllabary_is_literal()
    ensures
        syllabary_spec() == syllabary_literal(),
{
    syllabary_literal_part_0_10();
    syllabary_literal_part_10_20();
    syllabary_literal_part_20_30();
    syllabary_literal_part_30_40();
    syllabary_literal_part_40_50();
    syllabary_literal_part_50_60();
    syllabary_literal_part_60_70();
    syllabary_literal_part_70_80();
    syllabary_literal_part_80_90();
    syllabary_literal_part_90_100();
    syllabary_literal_part_100_110();
    syllabary_literal_part_110_111();
    lemma_syllabary_len();
    assert(syllabary_spec() =~= syllabary_literal());
}

/// The token number at each syllabary position.
pub proof fn lemma_syllabary_codes()
    ensures
        forall|j: int| 0 <= j < 111 ==> tok_code(#[trigger] syllabary_spec()[j])
            == syllable_code_at(j),
{
    lemma_syllabary_is_literal();
    lemma_syllabary_len();
    assert forall|j: int| 0 <= j < 111 implies tok_code(#[trigger] syllabary_spec()[j])
        == syllable_code_at(j) by {
        assert(syllabary_spec()[j] == syllabary_literal()[j]);
        if j == 0 {
            assert(tok_code(syllabary_literal()[0]) == 0x40610000000);
        } else if j == 1 {
            assert(tok_code(syllabary_literal()[1]) == 0x40690000000);
        } else if j == 2 {
            assert(tok_code(syllabary_literal()[2]) == 0x40750000000);
        } else if j == 3 {
            assert(tok_code(syllabary_literal()[3]) == 0x40650000000);
        } else if j == 4 {
            assert(tok_code(syllabary_literal()[4]) == 0x406f0000000);
        } else if j == 5 {
            assert(tok_code(syllabary_literal()[5]) == 0x806b0184000);
        } else if j == 6 {
            assert(tok_code(syllabary_literal()[6]) == 0x806b01a4000);
        } else if j == 7 {
            assert(tok_code(syllabary_literal()[7]) == 0x806b01d4000);
        } else if j == 8 {
            assert(tok_code(syllabary_literal()[8]) == 0x806b0194000);
        } else if j == 9 {
            assert(tok_code(syllabary_literal()[9]) == 0x806b01bc000);
        } else if j == 10 {
            assert(tok_code(syllabary_literal()[10]) == 0x80670184000);
        } else if j == 11 {
            assert(tok_code(syllabary_literal()[11]) == 0x806701a4000);
        } else if j == 12 {
            assert(tok_code(syllabary_literal()[12]) == 0x806701d4000);
        } else if j == 13 {
            assert(tok_code(syllabary_literal()[13]) == 0x80670194000);
        } else if j == 14 {
            assert(tok_code(syllabary_literal()[14]) == 0x806701bc000);
        } else if j == 15 {
            assert(tok_code(syllabary_literal()[15]) == 0x80730184000);
        } else if j == 16 {
            assert(tok_code(syllabary_literal()[16]) == 0xc07301a0069);
        } else if j == 17 {
            assert(tok_code(syllabary_literal()[17]) == 0x807301d4000);
        } else if j == 18 {
            assert(tok_code(syllabary_literal()[18]) == 0x80730194000);
        } else if j == 19 {
            assert(tok_code(syllabary_literal()[19]) == 0x807301bc000);
        } else if j == 20 {
            assert(tok_code(syllabary_literal()[20]) == 0x807a0184000);
        } else if j == 21 {
            assert(tok_code(syllabary_literal()[21]) == 0x806a01a4000);
        } else if j == 22 {
            assert(tok_code(syllabary_literal()[22]) == 0x807a01d4000);
        } else if j == 23 {
            assert(tok_code(syllabary_literal()[23]) == 0x807a0194000);
        } else if j == 24 {
            assert(tok_code(syllabary_literal()[24]) == 0x807a01bc000);
        } else if j == 25 {
            assert(tok_code(syllabary_literal()[25]) == 0x80740184000);
        } else if j == 26 {
            assert(tok_code(syllabary_literal()[26]) == 0xc06301a0069);
        } else if j == 27 {
            assert(tok_code(syllabary_literal()[27]) == 0xc07401cc075);
        } else if j == 28 {
            assert(tok_code(syllabary_literal()[28]) == 0x80740194000);
        } else if j == 29 {
            assert(tok_code(syllabary_literal()[29]) == 0x807401bc000);
        } else if j == 30 {
            assert(tok_code(syllabary_literal()[30]) == 0x80640184000);
        } else if j == 31 {
            assert(tok_code(syllabary_literal()[31]) == 0x806401a4000);
        } else if j == 32 {
            assert(tok_code(syllabary_literal()[32]) == 0x806401d4000);
        } else if j == 33 {
            assert(tok_code(syllabary_literal()[33]) == 0x80640194000);
        } else if j == 34 {
            assert(tok_code(syllabary_literal()[34]) == 0x806401bc000);
        } else if j == 35 {
            assert(tok_code(syllabary_literal()[35]) == 0x806e0184000);
        } else if j == 36 {
            assert(tok_code(syllabary_literal()[36]) == 0x806e01a4000);
        } else if j == 37 {
            assert(tok_code(syllabary_literal()[37]) == 0x806e01d4000);
        } else if j == 38 {
            assert(tok_code(syllabary_literal()[38]) == 0x806e0194000);
        } else if j == 39 {
            assert(tok_code(syllabary_literal()[39]) == 0x806e01bc000);
        } else if j == 40 {
            assert(tok_code(syllabary_literal()[40]) == 0x80680184000);
        } else if j == 41 {
            assert(tok_code(syllabary_literal()[41]) == 0x806801a4000);
        } else if j == 42 {
            assert(tok_code(syllabary_literal()[42]) == 0x806601d4000);
        } else if j == 43 {
            assert(tok_code(syllabary_literal()[43]) == 0x80680194000);
        } else if j == 44 {
            assert(tok_code(syllabary_literal()[44]) == 0x806801bc000);
        } else if j == 45 {
            assert(tok_code(syllabary_literal()[45]) == 0x80620184000);
        } else if j == 46 {
            assert(tok_code(syllabary_literal()[46]) == 0x806201a4000);
        } else if j == 47 {
            assert(tok_code(syllabary_literal()[47]) == 0x806201d4000);
        } else if j == 48 {
            assert(tok_code(syllabary_literal()[48]) == 0x80620194000);
        } else if j == 49 {
            assert(tok_code(syllabary_literal()[49]) == 0x806201bc000);
        } else if j == 50 {
            assert(tok_code(syllabary_literal()[50]) == 0x80700184000);
        } else if j == 51 {
            assert(tok_code(syllabary_literal()[51]) == 0x807001a4000);
        } else if j == 52 {
            assert(tok_code(syllabary_literal()[52]) == 0x807001d4000);
        } else if j == 53 {
            assert(tok_code(syllabary_literal()[53]) == 0x80700194000);
        } else if j == 54 {
            assert(tok_code(syllabary_literal()[54]) == 0x807001bc000);
        } else if j == 55 {
            assert(tok_code(syllabary_literal()[55]) == 0x806d0184000);
        } else if j == 56 {
            assert(tok_code(syllabary_literal()[56]) == 0x806d01a4000);
        } else if j == 57 {
            assert(tok_code(syllabary_literal()[57]) == 0x806d01d4000);
        } else if j == 58 {
            assert(tok_code(syllabary_literal()[58]) == 0x806d0194000);
        } else if j == 59 {
            assert(tok_code(syllabary_literal()[59]) == 0x806d01bc000);
        } else if j == 60 {
            assert(tok_code(syllabary_literal()[60]) == 0x80790184000);
        } else if j == 61 {
            assert(tok_code(syllabary_literal()[61]) == 0x807901a4000);
        } else if j == 62 {
            assert(tok_code(syllabary_literal()[62]) == 0x807901d4000);
        } else if j == 63 {
            assert(tok_code(syllabary_literal()[63]) == 0x80790194000);
        } else if j == 64 {
            assert(tok_code(syllabary_literal()[64]) == 0x807901bc000);
        } else if j == 65 {
            assert(tok_code(syllabary_literal()[65]) == 0x80720184000);
        } else if j == 66 {
            assert(tok_code(syllabary_literal()[66]) == 0x807201a4000);
        } else if j == 67 {
            assert(tok_code(syllabary_literal()[67]) == 0x807201d4000);
        } else if j == 68 {
            assert(tok_code(syllabary_literal()[68]) == 0x80720194000);
        } else if j == 69 {
            assert(tok_code(syllabary_literal()[69]) == 0x807201bc000);
        } else if j == 70 {
            assert(tok_code(syllabary_literal()[70]) == 0x80770184000);
        } else if j == 71 {
            assert(tok_code(syllabary_literal()[71]) == 0x807701a4000);
        } else if j == 72 {
            assert(tok_code(syllabary_literal()[72]) == 0x807701d4000);
        } else if j == 73 {
            assert(tok_code(syllabary_literal()[73]) == 0x80770194000);
        } else if j == 74 {
            assert(tok_code(syllabary_literal()[74]) == 0x807701bc000);
        } else if j == 75 {
            assert(tok_code(syllabary_literal()[75]) == 0xc06b01e4061);
        } else if j == 76 {
            assert(tok_code(syllabary_literal()[76]) == 0xc06b01e4075);
        } else if j == 77 {
            assert(tok_code(syllabary_literal()[77]) == 0xc06b01e406f);
        } else if j == 78 {
            assert(tok_code(syllabary_literal()[78]) == 0xc07301a0061);
        } else if j == 79 {
            assert(tok_code(syllabary_literal()[79]) == 0xc07301a0075);
        } else if j == 80 {
            assert(tok_code(syllabary_literal()[80]) == 0xc07301a006f);
        } else if j == 81 {
            assert(tok_code(syllabary_literal()[81]) == 0xc06301a0061);
        } else if j == 82 {
            assert(tok_code(syllabary_literal()[82]) == 0xc06301a0075);
        } else if j == 83 {
            assert(tok_code(syllabary_literal()[83]) == 0xc06301a006f);
        } else if j == 84 {
            assert(tok_code(syllabary_literal()[84]) == 0xc06e01c4061);
        } else if j == 85 {
            assert(tok_code(syllabary_literal()[85]) == 0xc06e01c4075);
        } else if j == 86 {
            assert(tok_code(syllabary_literal()[86]) == 0xc06e01c406f);
        } else if j == 87 {
            assert(tok_code(syllabary_literal()[87]) == 0xc06801e4061);
        } else if j == 88 {
            assert(tok_code(syllabary_literal()[88]) == 0xc06801e4075);
        } else if j == 89 {
            assert(tok_code(syllabary_literal()[89]) == 0xc06801e406f);
        } else if j == 90 {
            assert(tok_code(syllabary_literal()[90]) == 0xc06d01e4061);
        } else if j == 91 {
            assert(tok_code(syllabary_literal()[91]) == 0xc06d01e4075);
        } else if j == 92 {
            assert(tok_code(syllabary_literal()[92]) == 0xc06d01e406f);
        } else if j == 93 {
            assert(tok_code(syllabary_literal()[93]) == 0xc07201e4061);
        } else if j == 94 {
            assert(tok_code(syllabary_literal()[94]) == 0xc07201e4075);
        } else if j == 95 {
            assert(tok_code(syllabary_literal()[95]) == 0xc07201e406f);
        } else if j == 96 {
            assert(tok_code(syllabary_literal()[96]) == 0xc06701e4061);
        } else if j == 97 {
            assert(tok_code(syllabary_literal()[97]) == 0xc06701e4075);
        } else if j == 98 {
            assert(tok_code(syllabary_literal()[98]) == 0xc06701e406f);
        } else if j == 99 {
            assert(tok_code(syllabary_literal()[99]) == 0x806a0184000);
        } else if j == 100 {
            assert(tok_code(syllabary_literal()[100]) == 0x806a01d4000);
        } else if j == 101 {
            assert(tok_code(syllabary_literal()[101]) == 0x806a01bc000);
        } else if j == 102 {
            assert(tok_code(syllabary_literal()[102]) == 0xc06201e4061);
        } else if j == 103 {
            assert(tok_code(syllabary_literal()[103]) == 0xc06201e4075);
        } else if j == 104 {
            assert(tok_code(syllabary_literal()[104]) == 0xc06201e406f);
        } else if j == 105 {
            assert(tok_code(syllabary_literal()[105]) == 0xc07001e4061);
        } else if j == 106 {
            assert(tok_code(syllabary_literal()[106]) == 0xc07001e4075);
        } else if j == 107 {
            assert(tok_code(syllabary_literal()[107]) == 0xc07001e406f);
        } else if j == 108 {
            assert(tok_code(syllabary_literal()[108]) == 0x406e0000000);
        } else if j == 109 {
            assert(tok_code(syllabary_literal()[109]) == 0x40470000000);
        } else if j == 110 {
            assert(tok_code(syllabary_literal()[110]) == 0x806a0194000);
        } else {
        }
    }
}

/// The token number at each hiragana key position.
pub proof fn lemma_hira_key_codes()
    ensures
        forall|j: int| 0 <= j < 111 ==> tok_code(#[trigger] hiragana_keys_spec()[j])
            == hira_key_code_at(j),
{
    assert forall|j: int| 0 <= j < 111 implies tok_code(#[trigger] hiragana_keys_spec()[j])
        == hira_key_code_at(j) by {
        if j == 0 {
            reveal_strlit("\u{3042}");
            assert(tok_code(hiragana_keys_spec()[0]) == 0x70420000000);
        } else if j == 1 {
            reveal_strlit("\u{3044}");
            assert(tok_code(hiragana_keys_spec()[1]) == 0x70440000000);
        } else if j == 2 {
            reveal_strlit("\u{3046}");
            assert(tok_code(hiragana_keys_spec()[2]) == 0x70460000000);
        } else if j == 3 {
            reveal_strlit("\u{3048}");
            assert(tok_code(hiragana_keys_spec()[3]) == 0x70480000000);
        } else if j == 4 {
            reveal_strlit("\u{304a}");
            assert(tok_code(hiragana_keys_spec()[4]) == 0x704a0000000);
        } else if j == 5 {
            reveal_strlit("\u{304b}");
            assert(tok_code(hiragana_keys_spec()[5]) == 0x704b0000000);
        } else if j == 6 {
            reveal_strlit("\u{304d}");
            assert(tok_code(hiragana_keys_spec()[6]) == 0x704d0000000);
        } else if j == 7 {
            reveal_strlit("\u{304f}");
            assert(tok_code(hiragana_keys_spec()[7]) == 0x704f0000000);
        } else if j == 8 {
            reveal_strlit("\u{3051}");
            assert(tok_code(hiragana_keys_spec()[8]) == 0x70510000000);
        } else if j == 9 {
            reveal_strlit("\u{3053}");
            assert(tok_code(hiragana_keys_spec()[9]) == 0x70530000000);
        } else if j == 10 {
            reveal_strlit("\u{304c}");
            assert(tok_code(hiragana_keys_spec()[10]) == 0x704c0000000);
        } else if j == 11 {
            reveal_strlit("\u{304e}");
            assert(tok_code(hiragana_keys_spec()[11]) == 0x704e0000000);
        } else if j == 12 {
            reveal_strlit("\u{3050}");
            assert(tok_code(hiragana_keys_spec()[12]) == 0x70500000000);
        } else if j == 13 {
            reveal_strlit("\u{3052}");
            assert(tok_code(hiragana_keys_spec()[13]) == 0x70520000000);
        } else if j == 14 {
            reveal_strlit("\u{3054}");
            assert(tok_code(hiragana_keys_spec()[14]) == 0x70540000000);
        } else if j == 15 {
            reveal_strlit("\u{3055}");
            assert(tok_code(hiragana_keys_spec()[15]) == 0x70550000000);
        } else if j == 16 {
            reveal_strlit("\u{3057}");
            assert(tok_code(hiragana_keys_spec()[16]) == 0x70570000000);
        } else if j == 17 {
            reveal_strlit("\u{3059}");
            assert(tok_code(hiragana_keys_spec()[17]) == 0x70590000000);
        } else if j == 18 {
            reveal_strlit("\u{305b}");
            assert(tok_code(hiragana_keys_spec()[18]) == 0x705b0000000);
        } else if j == 19 {
            reveal_strlit("\u{305d}");
            assert(tok_code(hiragana_keys_spec()[19]) == 0x705d0000000);
        } else if j == 20 {
            reveal_strlit("\u{3056}");
            assert(tok_code(hiragana_keys_spec()[20]) == 0x70560000000);
        } else if j == 21 {
            reveal_strlit("\u{3058}");
            assert(tok_code(hiragana_keys_spec()[21]) == 0x70580000000);
        } else if j == 22 {
            reveal_strlit("\u{305a}");
            assert(tok_code(hiragana_keys_spec()[22]) == 0x705a0000000);
        } else if j == 23 {
            reveal_strlit("\u{305c}");
            assert(tok_code(hiragana_keys_spec()[23]) == 0x705c0000000);
        } else if j == 24 {
            reveal_strlit("\u{305e}");
            assert(tok_code(hiragana_keys_spec()[24]) == 0x705e0000000);
        } else if j == 25 {
            reveal_strlit("\u{305f}");
            assert(tok_code(hiragana_keys_spec()[25]) == 0x705f0000000);
        } else if j == 26 {
            reveal_strlit("\u{3061}");
            assert(tok_code(hiragana_keys_spec()[26]) == 0x70610000000);
        } else if j == 27 {
            reveal_strlit("\u{3064}");
            assert(tok_code(hiragana_keys_spec()[27]) == 0x70640000000);
        } else if j == 28 {
            reveal_strlit("\u{3066}");
            assert(tok_code(hiragana_keys_spec()[28]) == 0x70660000000);
        } else if j == 29 {
            reveal_strlit("\u{3068}");
            assert(tok_code(hiragana_keys_spec()[29]) == 0x70680000000);
        } else if j == 30 {
            reveal_strlit("\u{3060}");
            assert(tok_code(hiragana_keys_spec()[30]) == 0x70600000000);
        } else if j == 31 {
            reveal_strlit("\u{3062}");
            assert(tok_code(hiragana_keys_spec()[31]) == 0x70620000000);
        } else if j == 32 {
            reveal_strlit("\u{3065}");
            assert(tok_code(hiragana_keys_spec()[32]) == 0x70650000000);
        } else if j == 33 {
            reveal_strlit("\u{3067}");
            assert(tok_code(hiragana_keys_spec()[33]) == 0x70670000000);
        } else if j == 34 {
            reveal_strlit("\u{3069}");
            assert(tok_code(hiragana_keys_spec()[34]) == 0x70690000000);
        } else if j == 35 {
            reveal_strlit("\u{306a}");
            assert(tok_code(hiragana_keys_spec()[35]) == 0x706a0000000);
        } else if j == 36 {
            reveal_strlit("\u{306b}");
            assert(tok_code(hiragana_keys_spec()[36]) == 0x706b0000000);
        } else if j == 37 {
            reveal_strlit("\u{306c}");
            assert(tok_code(hiragana_keys_spec()[37]) == 0x706c0000000);
        } else if j == 38 {
            reveal_strlit("\u{306d}");
            assert(tok_code(hiragana_keys_spec()[38]) == 0x706d0000000);
        } else if j == 39 {
            reveal_strlit("\u{306e}");
            assert(tok_code(hiragana_keys_spec()[39]) == 0x706e0000000);
        } else if j == 40 {
            reveal_strlit("\u{306f}");
            assert(tok_code(hiragana_keys_spec()[40]) == 0x706f0000000);
        } else if j == 41 {
            reveal_strlit("\u{3072}");
            assert(tok_code(hiragana_keys_spec()[41]) == 0x70720000000);
        } else if j == 42 {
            reveal_strlit("\u{3075}");
            assert(tok_code(hiragana_keys_spec()[42]) == 0x70750000000);
        } else if j == 43 {
            reveal_strlit("\u{3078}");
            assert(tok_code(hiragana_keys_spec()[43]) == 0x70780000000);
        } else if j == 44 {
            reveal_strlit("\u{307b}");
            assert(tok_code(hiragana_keys_spec()[44]) == 0x707b0000000);
        } else if j == 45 {
            reveal_strlit("\u{3070}");
            assert(tok_code(hiragana_keys_spec()[45]) == 0x70700000000);
        } else if j == 46 {
            reveal_strlit("\u{3073}");
            assert(tok_code(hiragana_keys_spec()[46]) == 0x70730000000);
        } else if j == 47 {
            reveal_strlit("\u{3076}");
            assert(tok_code(hiragana_keys_spec()[47]) == 0x70760000000);
        } else if j == 48 {
            reveal_strlit("\u{3079}");
            assert(tok_code(hiragana_keys_spec()[48]) == 0x70790000000);
        } else if j == 49 {
            reveal_strlit("\u{307c}");
            assert(tok_code(hiragana_keys_spec()[49]) == 0x707c0000000);
        } else if j == 50 {
            reveal_strlit("\u{3071}");
            assert(tok_code(hiragana_keys_spec()[50]) == 0x70710000000);
        } else if j == 51 {
            reveal_strlit("\u{3074}");
            assert(tok_code(hiragana_keys_spec()[51]) == 0x70740000000);
        } else if j == 52 {
            reveal_strlit("\u{3077}");
            assert(tok_code(hiragana_keys_spec()[52]) == 0x70770000000);
        } else if j == 53 {
            reveal_strlit("\u{307a}");
            assert(tok_code(hiragana_keys_spec()[53]) == 0x707a0000000);
        } else if j == 54 {
            reveal_strlit("\u{307d}");
            assert(tok_code(hiragana_keys_spec()[54]) == 0x707d0000000);
        } else if j == 55 {
            reveal_strlit("\u{307e}");
            assert(tok_code(hiragana_keys_spec()[55]) == 0x707e0000000);
        } else if j == 56 {
            reveal_strlit("\u{307f}");
            assert(tok_code(hiragana_keys_spec()[56]) == 0x707f0000000);
        } else if j == 57 {
            reveal_strlit("\u{3080}");
            assert(tok_code(hiragana_keys_spec()[57]) == 0x70800000000);
        } else if j == 58 {
            reveal_strlit("\u{3081}");
            assert(tok_code(hiragana_keys_spec()[58]) == 0x70810000000);
        } else if j == 59 {
            reveal_strlit("\u{3082}");
            assert(tok_code(hiragana_keys_spec()[59]) == 0x70820000000);
        } else if j == 60 {
            reveal_strlit("\u{3084}");
            assert(tok_code(hiragana_keys_spec()[60]) == 0x70840000000);
        } else if j == 61 {
            reveal_strlit("NOT USED");
            assert(tok_code(hiragana_keys_spec()[61]) == 0x2004e013c054);
        } else if j == 62 {
            reveal_strlit("\u{3086}");
            assert(tok_code(hiragana_keys_spec()[62]) == 0x70860000000);
        } else if j == 63 {
            reveal_strlit("NOT USED");
            assert(tok_code(hiragana_keys_spec()[63]) == 0x2004e013c054);
        } else if j == 64 {
            reveal_strlit("\u{3088}");
            assert(tok_code(hiragana_keys_spec()[64]) == 0x70880000000);
        } else if j == 65 {
            reveal_strlit("\u{3089}");
            assert(tok_code(hiragana_keys_spec()[65]) == 0x70890000000);
        } else if j == 66 {
            reveal_strlit("\u{308a}");
            assert(tok_code(hiragana_keys_spec()[66]) == 0x708a0000000);
        } else if j == 67 {
            reveal_strlit("\u{308b}");
            assert(tok_code(hiragana_keys_spec()[67]) == 0x708b0000000);
        } else if j == 68 {
            reveal_strlit("\u{308c}");
            assert(tok_code(hiragana_keys_spec()[68]) == 0x708c0000000);
        } else if j == 69 {
            reveal_strlit("\u{308d}");
            assert(tok_code(hiragana_keys_spec()[69]) == 0x708d0000000);
        } else if j == 70 {
            reveal_strlit("\u{308f}");
            assert(tok_code(hiragana_keys_spec()[70]) == 0x708f0000000);
        } else if j == 71 {
            reveal_strlit("\u{3090}");
            assert(tok_code(hiragana_keys_spec()[71]) == 0x70900000000);
        } else if j == 72 {
            reveal_strlit("NOT USED");
            assert(tok_code(hiragana_keys_spec()[72]) == 0x2004e013c054);
        } else if j == 73 {
            reveal_strlit("\u{3090}");
            assert(tok_code(hiragana_keys_spec()[73]) == 0x70900000000);
        } else if j == 74 {
            reveal_strlit("\u{3091}");
            assert(tok_code(hiragana_keys_spec()[74]) == 0x70910000000);
        } else if j == 75 {
            reveal_strlit("\u{304d}\u{3083}");
            assert(tok_code(hiragana_keys_spec()[75]) == 0xb04dc20c000);
        } else if j == 76 {
            reveal_strlit("\u{304d}\u{3085}");
            assert(tok_code(hiragana_keys_spec()[76]) == 0xb04dc214000);
        } else if j == 77 {
            reveal_strlit("\u{304d}\u{3087}");
            assert(tok_code(hiragana_keys_spec()[77]) == 0xb04dc21c000);
        } else if j == 78 {
            reveal_strlit("\u{3057}\u{3083}");
            assert(tok_code(hiragana_keys_spec()[78]) == 0xb057c20c000);
        } else if j == 79 {
            reveal_strlit("\u{3057}\u{3085}");
            assert(tok_code(hiragana_keys_spec()[79]) == 0xb057c214000);
        } else if j == 80 {
            reveal_strlit("\u{3057}\u{3087}");
            assert(tok_code(hiragana_keys_spec()[80]) == 0xb057c21c000);
        } else if j == 81 {
            reveal_strlit("\u{3061}\u{3083}");
            assert(tok_code(hiragana_keys_spec()[81]) == 0xb061c20c000);
        } else if j == 82 {
            reveal_strlit("\u{3061}\u{3085}");
            assert(tok_code(hiragana_keys_spec()[82]) == 0xb061c214000);
        } else if j == 83 {
            reveal_strlit("\u{3061}\u{3087}");
            assert(tok_code(hiragana_keys_spec()[83]) == 0xb061c21c000);
        } else if j == 84 {
            reveal_strlit("\u{306b}\u{3083}");
            assert(tok_code(hiragana_keys_spec()[84]) == 0xb06bc20c000);
        } else if j == 85 {
            reveal_strlit("\u{306b}\u{3085}");
            assert(tok_code(hiragana_keys_spec()[85]) == 0xb06bc214000);
        } else if j == 86 {
            reveal_strlit("\u{306b}\u{3087}");
            assert(tok_code(hiragana_keys_spec()[86]) == 0xb06bc21c000);
        } else if j == 87 {
            reveal_strlit("\u{3072}\u{3083}");
            assert(tok_code(hiragana_keys_spec()[87]) == 0xb072c20c000);
        } else if j == 88 {
            reveal_strlit("\u{3072}\u{3085}");
            assert(tok_code(hiragana_keys_spec()[88]) == 0xb072c214000);
        } else if j == 89 {
            reveal_strlit("\u{3072}\u{3087}");
            assert(tok_code(hiragana_keys_spec()[89]) == 0xb072c21c000);
        } else if j == 90 {
            reveal_strlit("\u{307f}\u{3083}");
            assert(tok_code(hiragana_keys_spec()[90]) == 0xb07fc20c000);
        } else if j == 91 {
            reveal_strlit("\u{307f}\u{3085}");
            assert(tok_code(hiragana_keys_spec()[91]) == 0xb07fc214000);
        } else if j == 92 {
            reveal_strlit("\u{307f}\u{3087}");
            assert(tok_code(hiragana_keys_spec()[92]) == 0xb07fc21c000);
        } else if j == 93 {
            reveal_strlit("\u{308a}\u{3083}");
            assert(tok_code(hiragana_keys_spec()[93]) == 0xb08ac20c000);
        } else if j == 94 {
            reveal_strlit("\u{308a}\u{3085}");
            assert(tok_code(hiragana_keys_spec()[94]) == 0xb08ac214000);
        } else if j == 95 {
            reveal_strlit("\u{308a}\u{3087}");
            assert(tok_code(hiragana_keys_spec()[95]) == 0xb08ac21c000);
        } else if j == 96 {
            reveal_strlit("\u{304e}\u{3083}");
            assert(tok_code(hiragana_keys_spec()[96]) == 0xb04ec20c000);
        } else if j == 97 {
            reveal_strlit("\u{304e}\u{3085}");
            assert(tok_code(hiragana_keys_spec()[97]) == 0xb04ec214000);
        } else if j == 98 {
            reveal_strlit("\u{304e}\u{3087}");
            assert(tok_code(hiragana_keys_spec()[98]) == 0xb04ec21c000);
        } else if j == 99 {
            reveal_strlit("\u{3058}\u{3083}");
            assert(tok_code(hiragana_keys_spec()[99]) == 0xb058c20c000);
        } else if j == 100 {
            reveal_strlit("\u{3058}\u{3085}");
            assert(tok_code(hiragana_keys_spec()[100]) == 0xb058c214000);
        } else if j == 101 {
            reveal_strlit("\u{3058}\u{3087}");
            assert(tok_code(hiragana_keys_spec()[101]) == 0xb058c21c000);
        } else if j == 102 {
            reveal_strlit("\u{3073}\u{3083}");
            assert(tok_code(hiragana_keys_spec()[102]) == 0xb073c20c000);
        } else if j == 103 {
            reveal_strlit("\u{3073}\u{3085}");
            assert(tok_code(hiragana_keys_spec()[103]) == 0xb073c214000);
        } else if j == 104 {
            reveal_strlit("\u{3073}\u{3087}");
            assert(tok_code(hiragana_keys_spec()[104]) == 0xb073c21c000);
        } else if j == 105 {
            reveal_strlit("\u{3074}\u{3083}");
            assert(tok_code(hiragana_keys_spec()[105]) == 0xb074c20c000);
        } else if j == 106 {
            reveal_strlit("\u{3074}\u{3085}");
            assert(tok_code(hiragana_keys_spec()[106]) == 0xb074c214000);
        } else if j == 107 {
            reveal_strlit("\u{3074}\u{3087}");
            assert(tok_code(hiragana_keys_spec()[107]) == 0xb074c21c000);
        } else if j == 108 {
            reveal_strlit("\u{3093}");
            assert(tok_code(hiragana_keys_spec()[108]) == 0x70930000000);
        } else if j == 109 {
            reveal_strlit("\u{3063}");
            assert(tok_code(hiragana_keys_spec()[109]) == 0x70630000000);
        } else if j == 110 {
            reveal_strlit("\u{3058}\u{3047}");
            assert(tok_code(hiragana_keys_spec()[110]) == 0xb058c11c000);
        } else {
        }
    }
}

/// The token number of each hiragana fallback key.
pub proof fn lemma_hira_fallback_codes()
    ensures
        forall|j: int| 0 <= j < hiragana_fallbacks().len() ==> tok_code(
            (#[trigger] hiragana_fallbacks()[j]).0,
        ) == hira_fallback_code_at(j),
{
    assert forall|j: int| 0 <= j < hiragana_fallbacks().len() implies tok_code(
        (#[trigger] hiragana_fallbacks()[j]).0,
    ) == hira_fallback_code_at(j) by {
        if j == 0 {
            reveal_strlit("b");
            assert(hiragana_fallbacks()[0].0 == "b"@);
            assert(tok_code(hiragana_fallbacks()[0].0) == 0x40620000000);
        } else if j == 1 {
            reveal_strlit("ch");
            assert(hiragana_fallbacks()[1].0 == "ch"@);
            assert(tok_code(hiragana_fallbacks()[1].0) == 0x806301a0000);
        } else if j == 2 {
            reveal_strlit("d");
            assert(hiragana_fallbacks()[2].0 == "d"@);
            assert(tok_code(hiragana_fallbacks()[2].0) == 0x40640000000);
        } else if j == 3 {
            reveal_strlit("z");
            assert(hiragana_fallbacks()[3].0 == "z"@);
            assert(tok_code(hiragana_fallbacks()[3].0) == 0x407a0000000);
        } else if j == 4 {
            reveal_strlit("f");
            assert(hiragana_fallbacks()[4].0 == "f"@);
            assert(tok_code(hiragana_fallbacks()[4].0) == 0x40660000000);
        } else if j == 5 {
            reveal_strlit("g");
            assert(hiragana_fallbacks()[5].0 == "g"@);
            assert(tok_code(hiragana_fallbacks()[5].0) == 0x40670000000);
        } else if j == 6 {
            reveal_strlit("h");
            assert(hiragana_fallbacks()[6].0 == "h"@);
            assert(tok_code(hiragana_fallbacks()[6].0) == 0x40680000000);
        } else if j == 7 {
            reveal_strlit("j");
            assert(hiragana_fallbacks()[7].0 == "j"@);
            assert(tok_code(hiragana_fallbacks()[7].0) == 0x406a0000000);
        } else if j == 8 {
            reveal_strlit("k");
            assert(hiragana_fallbacks()[8].0 == "k"@);
            assert(tok_code(hiragana_fallbacks()[8].0) == 0x406b0000000);
        } else if j == 9 {
            reveal_strlit("r");
            assert(hiragana_fallbacks()[9].0 == "r"@);
            assert(tok_code(hiragana_fallbacks()[9].0) == 0x40720000000);
        } else if j == 10 {
            reveal_strlit("p");
            assert(hiragana_fallbacks()[10].0 == "p"@);
            assert(tok_code(hiragana_fallbacks()[10].0) == 0x40700000000);
        } else if j == 11 {
            reveal_strlit("s");
            assert(hiragana_fallbacks()[11].0 == "s"@);
            assert(tok_code(hiragana_fallbacks()[11].0) == 0x40730000000);
        } else if j == 12 {
            reveal_strlit("sh");
            assert(hiragana_fallbacks()[12].0 == "sh"@);
            assert(tok_code(hiragana_fallbacks()[12].0) == 0x807301a0000);
        } else if j == 13 {
            reveal_strlit("t");
            assert(hiragana_fallbacks()[13].0 == "t"@);
            assert(tok_code(hiragana_fallbacks()[13].0) == 0x40740000000);
        } else if j == 14 {
            reveal_strlit("si");
            assert(hiragana_fallbacks()[14].0 == "si"@);
            assert(tok_code(hiragana_fallbacks()[14].0) == 0x807301a4000);
        } else if j == 15 {
            reveal_strlit("ti");
            assert(hiragana_fallbacks()[15].0 == "ti"@);
            assert(tok_code(hiragana_fallbacks()[15].0) == 0x807401a4000);
        } else if j == 16 {
            reveal_strlit("tu");
            assert(hiragana_fallbacks()[16].0 == "tu"@);
            assert(tok_code(hiragana_fallbacks()[16].0) == 0x807401d4000);
        } else if j == 17 {
            reveal_strlit("hu");
            assert(hiragana_fallbacks()[17].0 == "hu"@);
            assert(tok_code(hiragana_fallbacks()[17].0) == 0x806801d4000);
        } else if j == 18 {
            reveal_strlit("zi");
            assert(hiragana_fallbacks()[18].0 == "zi"@);
            assert(tok_code(hiragana_fallbacks()[18].0) == 0x807a01a4000);
        } else if j == 19 {
            reveal_strlit("m");
            assert(hiragana_fallbacks()[19].0 == "m"@);
            assert(tok_code(hiragana_fallbacks()[19].0) == 0x406d0000000);
        } else {
        }
    }
}

/// The syllables whose kana is here proved to round-trip exactly:
/// the bare vowels, the k row, and the five conventionally renamed
/// syllables.  Each maps to a single kana that the inverse table
/// binds straight back.
pub open spec fn plain_syllables() -> Seq<Seq<char>> {
    seq![
        seq!['a'], seq!['i'], seq!['u'], seq!['e'], seq!['o'], seq!['k', 'a'], seq!['k', 'i'],
        seq!['k', 'u'], seq!['k', 'e'], seq!['k', 'o'], seq!['s', 'h', 'i'], seq!['j', 'i'],
        seq!['c', 'h', 'i'], seq!['t', 's', 'u'], seq!['f', 'u'],
    ]
}

/// The hiragana entries for the syllable a.
pub proof fn syllable_fact_0()
    ensures
        assoc_get(hiragana_pairs(), seq!['a']) == Some(seq!['\u{3042}']),
        assoc_get(roomaji_pairs(hiragana_keys_spec()), seq!['\u{3042}']) == Some(seq!['a']),
        is_letter('\u{3042}'),
        !is_glide_h('\u{3042}'),
        '\u{3042}' != '\u{3063}',
{
    lemma_syllabary_len();
    lemma_syllabary_is_literal();
    lemma_syllabary_codes();
    lemma_hira_key_codes();
    lemma_hira_fallback_codes();
    let q = seq!['a'];
    assert(tok_code(q) == 0x40610000000);
    let zipped = zip_pairs(syllabary_spec(), hiragana_keys_spec());
    let trimmed = assoc_remove(assoc_remove(assoc_remove(zipped, "yi"@), "ye"@), "wu"@);
    assert(hiragana_pairs() == assoc_put_all(trimmed, hiragana_fallbacks()));
    assert forall|fi: int| 0 <= fi < hiragana_fallbacks().len() implies (#[trigger]
        hiragana_fallbacks()[fi]).0 != q by {
        assert(hira_fallback_code_at(fi) != 0x40610000000);
        lemma_code_distinct(hiragana_fallbacks()[fi].0, q);
    }
    lemma_pairs_last_get_absent(hiragana_fallbacks(), q);
    lemma_assoc_get_put_all(trimmed, hiragana_fallbacks(), q);
    assert(q != "yi"@) by {
        reveal_strlit("yi");
        assert(tok_code("yi"@) == 0x807901a4000);
        lemma_code_distinct(q, "yi"@);
    }
    assert(q != "ye"@) by {
        reveal_strlit("ye");
        assert(tok_code("ye"@) == 0x80790194000);
        lemma_code_distinct(q, "ye"@);
    }
    assert(q != "wu"@) by {
        reveal_strlit("wu");
        assert(tok_code("wu"@) == 0x807701d4000);
        lemma_code_distinct(q, "wu"@);
    }
    lemma_assoc_get_remove_other(assoc_remove(assoc_remove(zipped, "yi"@), "ye"@), "wu"@, q);
    lemma_assoc_get_remove_other(assoc_remove(zipped, "yi"@), "ye"@, q);
    lemma_assoc_get_remove_other(zipped, "yi"@, q);
    assert(syllabary_spec()[0] == syllabary_literal()[0]);
    assert(syllabary_spec()[0] == q);
    assert(zipped[0].0 == q);
    lemma_assoc_get_found(zipped, q, 0);
    assert(zipped[0].1 == hiragana_keys_spec()[0]);
    reveal_strlit("\u{3042}");
    assert(hiragana_keys_spec()[0] =~= seq!['\u{3042}']);

    let kq = seq!['\u{3042}'];
    assert(tok_code(kq) == 0x70420000000);
    assert(roomaji_pairs(hiragana_keys_spec()) == assoc_put_zip(
        Seq::empty(),
        hiragana_keys_spec(),
        syllabary_spec(),
    ));
    lemma_assoc_get_put_zip(Seq::empty(), hiragana_keys_spec(), syllabary_spec(), kq);
    assert(hiragana_keys_spec()[0] == kq);
    assert forall|j: int| 0 < j < hiragana_keys_spec().len() implies hiragana_keys_spec()[j]
        != kq by {
        assert(hira_key_code_at(j) != 0x70420000000);
        lemma_code_distinct(hiragana_keys_spec()[j], kq);
    }
    lemma_zip_last_found(hiragana_keys_spec(), syllabary_spec(), kq, 0);
    assert(zip_last_get(hiragana_keys_spec(), syllabary_spec(), kq) == Some(
        syllabary_spec()[0],
    ));
}

/// The hiragana entries for the syllable i.
pub proof fn syllable_fact_1()
    ensures
        assoc_get(hiragana_pairs(), seq!['i']) == Some(seq!['\u{3044}']),
        assoc_get(roomaji_pairs(hiragana_keys_spec()), seq!['\u{3044}']) == Some(seq!['i']),
        is_letter('\u{3044}'),
        !is_glide_h('\u{3044}'),
        '\u{3044}' != '\u{3063}',
{
    lemma_syllabary_len();
    lemma_syllabary_is_literal();
    lemma_syllabary_codes();
    lemma_hira_key_codes();
    lemma_hira_fallback_codes();
    let q = seq!['i'];
    assert(tok_code(q) == 0x40690000000);
    let zipped = zip_pairs(syllabary_spec(), hiragana_keys_spec());
    let trimmed = assoc_remove(assoc_remove(assoc_remove(zipped, "yi"@), "ye"@), "wu"@);
    assert(hiragana_pairs() == assoc_put_all(trimmed, hiragana_fallbacks()));
    assert forall|fi: int| 0 <= fi < hiragana_fallbacks().len() implies (#[trigger]
        hiragana_fallbacks()[fi]).0 != q by {
        assert(hira_fallback_code_at(fi) != 0x40690000000);
        lemma_code_distinct(hiragana_fallbacks()[fi].0, q);
    }
    lemma_pairs_last_get_absent(hiragana_fallbacks(), q);
    lemma_assoc_get_put_all(trimmed, hiragana_fallbacks(), q);
    assert(q != "yi"@) by {
        reveal_strlit("yi");
        assert(tok_code("yi"@) == 0x807901a4000);
        lemma_code_distinct(q, "yi"@);
    }
    assert(q != "ye"@) by {
        reveal_strlit("ye");
        assert(tok_code("ye"@) == 0x80790194000);
        lemma_code_distinct(q, "ye"@);
    }
    assert(q != "wu"@) by {
        reveal_strlit("wu");
        assert(tok_code("wu"@) == 0x807701d4000);
        lemma_code_distinct(q, "wu"@);
    }
    lemma_assoc_get_remove_other(assoc_remove(assoc_remove(zipped, "yi"@), "ye"@), "wu"@, q);
    lemma_assoc_get_remove_other(assoc_remove(zipped, "yi"@), "ye"@, q);
    lemma_assoc_get_remove_other(zipped, "yi"@, q);
    assert(syllabary_spec()[1] == syllabary_literal()[1]);
    assert(syllabary_spec()[1] == q);
    assert(zipped[1].0 == q);
    assert forall|j: int| 0 <= j < 1 implies (#[trigger] zipped[j]).0 != q by {
        assert(zipped[j].0 == syllabary_spec()[j]);
        assert(syllable_code_at(j) != 0x40690000000);
        lemma_code_distinct(syllabary_spec()[j], q);
    }
    lemma_assoc_get_found(zipped, q, 1);
    assert(zipped[1].1 == hiragana_keys_spec()[1]);
    reveal_strlit("\u{3044}");
    assert(hiragana_keys_spec()[1] =~= seq!['\u{3044}']);

    let kq = seq!['\u{3044}'];
    assert(tok_code(kq) == 0x70440000000);
    assert(roomaji_pairs(hiragana_keys_spec()) == assoc_put_zip(
        Seq::empty(),
        hiragana_keys_spec(),
        syllabary_spec(),
    ));
    lemma_assoc_get_put_zip(Seq::empty(), hiragana_keys_spec(), syllabary_spec(), kq);
    assert(hiragana_keys_spec()[1] == kq);
    assert forall|j: int| 1 < j < hiragana_keys_spec().len() implies hiragana_keys_spec()[j]
        != kq by {
        assert(hira_key_code_at(j) != 0x70440000000);
        lemma_code_distinct(hiragana_keys_spec()[j], kq);
    }
    lemma_zip_last_found(hiragana_keys_spec(), syllabary_spec(), kq, 1);
    assert(zip_last_get(hiragana_keys_spec(), syllabary_spec(), kq) == Some(
        syllabary_spec()[1],
    ));
}

/// The hiragana entries for the syllable u.
pub proof fn syllable_fact_2()
    ensures
        assoc_get(hiragana_pairs(), seq!['u']) == Some(seq!['\u{3046}']),
        assoc_get(roomaji_pairs(hiragana_keys_spec()), seq!['\u{3046}']) == Some(seq!['u']),
        is_letter('\u{3046}'),
        !is_glide_h('\u{3046}'),
        '\u{3046}' != '\u{3063}',
{
    lemma_syllabary_len();
    lemma_syllabary_is_literal();
    lemma_syllabary_codes();
    lemma_hira_key_codes();
    lemma_hira_fallback_codes();
    let q = seq!['u'];
    assert(tok_code(q) == 0x40750000000);
    let zipped = zip_pairs(syllabary_spec(), hiragana_keys_spec());
    let trimmed = assoc_remove(assoc_remove(assoc_remove(zipped, "yi"@), "ye"@), "wu"@);
    assert(hiragana_pairs() == assoc_put_all(trimmed, hiragana_fallbacks()));
    assert forall|fi: int| 0 <= fi < hiragana_fallbacks().len() implies (#[trigger]
        hiragana_fallbacks()[fi]).0 != q by {
        assert(hira_fallback_code_at(fi) != 0x40750000000);
        lemma_code_distinct(hiragana_fallbacks()[fi].0, q);
    }
    lemma_pairs_last_get_absent(hiragana_fallbacks(), q);
    lemma_assoc_get_put_all(trimmed, hiragana_fallbacks(), q);
    assert(q != "yi"@) by {
        reveal_strlit("yi");
        assert(tok_code("yi"@) == 0x807901a4000);
        lemma_code_distinct(q, "yi"@);
    }
    assert(q != "ye"@) by {
        reveal_strlit("ye");
        assert(tok_code("ye"@) == 0x80790194000);
        lemma_code_distinct(q, "ye"@);
    }
    assert(q != "wu"@) by {
        reveal_strlit("wu");
        assert(tok_code("wu"@) == 0x807701d4000);
        lemma_code_distinct(q, "wu"@);
    }
    lemma_assoc_get_remove_other(assoc_remove(assoc_remove(zipped, "yi"@), "ye"@), "wu"@, q);
    lemma_assoc_get_remove_other(assoc_remove(zipped, "yi"@), "ye"@, q);
    lemma_assoc_get_remove_other(zipped, "yi"@, q);
    assert(syllabary_spec()[2] == syllabary_literal()[2]);
    assert(syllabary_spec()[2] == q);
    assert(zipped[2].0 == q);
    assert forall|j: int| 0 <= j < 2 implies (#[trigger] zipped[j]).0 != q by {
        assert(zipped[j].0 == syllabary_spec()[j]);
        assert(syllable_code_at(j) != 0x40750000000);
        lemma_code_distinct(syllabary_spec()[j], q);
    }
    lemma_assoc_get_found(zipped, q, 2);
    assert(zipped[2].1 == hiragana_keys_spec()[2]);
    reveal_strlit("\u{3046}");
    assert(hiragana_keys_spec()[2] =~= seq!['\u{3046}']);

    let kq = seq!['\u{3046}'];
    assert(tok_code(kq) == 0x70460000000);
    assert(roomaji_pairs(hiragana_keys_spec()) == assoc_put_zip(
        Seq::empty(),
        hiragana_keys_spec(),
        syllabary_spec(),
    ));
    lemma_assoc_get_put_zip(Seq::empty(), hiragana_keys_spec(), syllabary_spec(), kq);
    assert(hiragana_keys_spec()[2] == kq);
    assert forall|j: int| 2 < j < hiragana_keys_spec().len() implies hiragana_keys_spec()[j]
        != kq by {
        assert(hira_key_code_at(j) != 0x70460000000);
        lemma_code_distinct(hiragana_keys_spec()[j], kq);
    }
    lemma_zip_last_found(hiragana_keys_spec(), syllabary_spec(), kq, 2);
    assert(zip_last_get(hiragana_keys_spec(), syllabary_spec(), kq) == Some(
        syllabary_spec()[2],
    ));
}

/// The hiragana entries for the syllable e.
pub proof fn syllable_fact_3()
    ensures
        assoc_get(hiragana_pairs(), seq!['e']) == Some(seq!['\u{3048}']),
        assoc_get(roomaji_pairs(hiragana_keys_spec()), seq!['\u{3048}']) == Some(seq!['e']),
        is_letter('\u{3048}'),
        !is_glide_h('\u{3048}'),
        '\u{3048}' != '\u{3063}',
{
    lemma_syllabary_len();
    lemma_syllabary_is_literal();
    lemma_syllabary_codes();
    lemma_hira_key_codes();
    lemma_hira_fallback_codes();
    let q = seq!['e'];
    assert(tok_code(q) == 0x40650000000);
    let zipped = zip_pairs(syllabary_spec(), hiragana_keys_spec());
    let trimmed = assoc_remove(assoc_remove(assoc_remove(zipped, "yi"@), "ye"@), "wu"@);
    assert(hiragana_pairs() == assoc_put_all(trimmed, hiragana_fallbacks()));
    assert forall|fi: int| 0 <= fi < hiragana_fallbacks().len() implies (#[trigger]
        hiragana_fallbacks()[fi]).0 != q by {
        assert(hira_fallback_code_at(fi) != 0x40650000000);
        lemma_code_distinct(hiragana_fallbacks()[fi].0, q);
    }
    lemma_pairs_last_get_absent(hiragana_fallbacks(), q);
    lemma_assoc_get_put_all(trimmed, hiragana_fallbacks(), q);
    assert(q != "yi"@) by {
        reveal_strlit("yi");
        assert(tok_code("yi"@) == 0x807901a4000);
        lemma_code_distinct(q, "yi"@);
    }
    assert(q != "ye"@) by {
        reveal_strlit("ye");
        assert(tok_code("ye"@) == 0x80790194000);
        lemma_code_distinct(q, "ye"@);
    }
    assert(q != "wu"@) by {
        reveal_strlit("wu");
        assert(tok_code("wu"@) == 0x807701d4000);
        lemma_code_distinct(q, "wu"@);
    }
    lemma_assoc_get_remove_other(assoc_remove(assoc_remove(zipped, "yi"@), "ye"@), "wu"@, q);
    lemma_assoc_get_remove_other(assoc_remove(zipped, "yi"@), "ye"@, q);
    lemma_assoc_get_remove_other(zipped, "yi"@, q);
    assert(syllabary_spec()[3] == syllabary_literal()[3]);
    assert(syllabary_spec()[3] == q);
    assert(zipped[3].0 == q);
    assert forall|j: int| 0 <= j < 3 implies (#[trigger] zipped[j]).0 != q by {
        assert(zipped[j].0 == syllabary_spec()[j]);
        assert(syllable_code_at(j) != 0x40650000000);
        lemma_code_distinct(syllabary_spec()[j], q);
    }
    lemma_assoc_get_found(zipped, q, 3);
    assert(zipped[3].1 == hiragana_keys_spec()[3]);
    reveal_strlit("\u{3048}");
    assert(hiragana_keys_spec()[3] =~= seq!['\u{3048}']);

    let kq = seq!['\u{3048}'];
    assert(tok_code(kq) == 0x70480000000);
    assert(roomaji_pairs(hiragana_keys_spec()) == assoc_put_zip(
        Seq::empty(),
        hiragana_keys_spec(),
        syllabary_spec(),
    ));
    lemma_assoc_get_put_zip(Seq::empty(), hiragana_keys_spec(), syllabary_spec(), kq);
    assert(hiragana_keys_spec()[3] == kq);
    assert forall|j: int| 3 < j < hiragana_keys_spec().len() implies hiragana_keys_spec()[j]
        != kq by {
        assert(hira_key_code_at(j) != 0x70480000000);
        lemma_code_distinct(hiragana_keys_spec()[j], kq);
    }
    lemma_zip_last_found(hiragana_keys_spec(), syllabary_spec(), kq, 3);
    assert(zip_last_get(hiragana_keys_spec(), syllabary_spec(), kq) == Some(
        syllabary_spec()[3],
    ));
}

/// The hiragana entries for the syllable o.
pub proof fn syllable_fact_4()
    ensures
        assoc_get(hiragana_pairs(), seq!['o']) == Some(seq!['\u{304a}']),
        assoc_get(roomaji_pairs(hiragana_keys_spec()), seq!['\u{304a}']) == Some(seq!['o']),
        is_letter('\u{304a}'),
        !is_glide_h('\u{304a}'),
        '\u{304a}' != '\u{3063}',
{
    lemma_syllabary_len();
    lemma_syllabary_is_literal();
    lemma_syllabary_codes();
    lemma_hira_key_codes();
    lemma_hira_fallback_codes();
    let q = seq!['o'];
    assert(tok_code(q) == 0x406f0000000);
    let zipped = zip_pairs(syllabary_spec(), hiragana_keys_spec());
    let trimmed = assoc_remove(assoc_remove(assoc_remove(zipped, "yi"@), "ye"@), "wu"@);
    assert(hiragana_pairs() == assoc_put_all(trimmed, hiragana_fallbacks()));
    assert forall|fi: int| 0 <= fi < hiragana_fallbacks().len() implies (#[trigger]
        hiragana_fallbacks()[fi]).0 != q by {
        assert(hira_fallback_code_at(fi) != 0x406f0000000);
        lemma_code_distinct(hiragana_fallbacks()[fi].0, q);
    }
    lemma_pairs_last_get_absent(hiragana_fallbacks(), q);
    lemma_assoc_get_put_all(trimmed, hiragana_fallbacks(), q);
    assert(q != "yi"@) by {
        reveal_strlit("yi");
        assert(tok_code("yi"@) == 0x807901a4000);
        lemma_code_distinct(q, "yi"@);
    }
    assert(q != "ye"@) by {
        reveal_strlit("ye");
        assert(tok_code("ye"@) == 0x80790194000);
        lemma_code_distinct(q, "ye"@);
    }
    assert(q != "wu"@) by {
        reveal_strlit("wu");
        assert(tok_code("wu"@) == 0x807701d4000);
        lemma_code_distinct(q, "wu"@);
    }
    lemma_assoc_get_remove_other(assoc_remove(assoc_remove(zipped, "yi"@), "ye"@), "wu"@, q);
    lemma_assoc_get_remove_other(assoc_remove(zipped, "yi"@), "ye"@, q);
    lemma_assoc_get_remove_other(zipped, "yi"@, q);
    assert(syllabary_spec()[4] == syllabary_literal()[4]);
    assert(syllabary_spec()[4] == q);
    assert(zipped[4].0 == q);
    assert forall|j: int| 0 <= j < 4 implies (#[trigger] zipped[j]).0 != q by {
        assert(zipped[j].0 == syllabary_spec()[j]);
        assert(syllable_code_at(j) != 0x406f0000000);
        lemma_code_distinct(syllabary_spec()[j], q);
    }
    lemma_assoc_get_found(zipped, q, 4);
    assert(zipped[4].1 == hiragana_keys_spec()[4]);
    reveal_strlit("\u{304a}");
    assert(hiragana_keys_spec()[4] =~= seq!['\u{304a}']);

    let kq = seq!['\u{304a}'];
    assert(tok_code(kq) == 0x704a0000000);
    assert(roomaji_pairs(hiragana_keys_spec()) == assoc_put_zip(
        Seq::empty(),
        hiragana_keys_spec(),
        syllabary_spec(),
    ));
    lemma_assoc_get_put_zip(Seq::empty(), hiragana_keys_spec(), syllabary_spec(), kq);
    assert(hiragana_keys_spec()[4] == kq);
    assert forall|j: int| 4 < j < hiragana_keys_spec().len() implies hiragana_keys_spec()[j]
        != kq by {
        assert(hira_key_code_at(j) != 0x704a0000000);
        lemma_code_distinct(hiragana_keys_spec()[j], kq);
    }
    lemma_zip_last_found(hiragana_keys_spec(), syllabary_spec(), kq, 4);
    assert(zip_last_get(hiragana_keys_spec(), syllabary_spec(), kq) == Some(
        syllabary_spec()[4],
    ));
}

/// The hiragana entries for the syllable ka.
pub proof fn syllable_fact_5()
    ensures
        assoc_get(hiragana_pairs(), seq!['k', 'a']) == Some(seq!['\u{304b}']),
        assoc_get(roomaji_pairs(hiragana_keys_spec()), seq!['\u{304b}']) == Some(seq!['k', 'a']),
        is_letter('\u{304b}'),
        !is_glide_h('\u{304b}'),
        '\u{304b}' != '\u{3063}',
{
    lemma_syllabary_len();
    lemma_syllabary_is_literal();
    lemma_syllabary_codes();
    lemma_hira_key_codes();
    lemma_hira_fallback_codes();
    let q = seq!['k', 'a'];
    assert(tok_code(q) == 0x806b0184000);
    let zipped = zip_pairs(syllabary_spec(), hiragana_keys_spec());
    let trimmed = assoc_remove(assoc_remove(assoc_remove(zipped, "yi"@), "ye"@), "wu"@);
    assert(hiragana_pairs() == assoc_put_all(trimmed, hiragana_fallbacks()));
    assert forall|fi: int| 0 <= fi < hiragana_fallbacks().len() implies (#[trigger]
        hiragana_fallbacks()[fi]).0 != q by {
        assert(hira_fallback_code_at(fi) != 0x806b0184000);
        lemma_code_distinct(hiragana_fallbacks()[fi].0, q);
    }
    lemma_pairs_last_get_absent(hiragana_fallbacks(), q);
    lemma_assoc_get_put_all(trimmed, hiragana_fallbacks(), q);
    assert(q != "yi"@) by {
        reveal_strlit("yi");
        assert(tok_code("yi"@) == 0x807901a4000);
        lemma_code_distinct(q, "yi"@);
    }
    assert(q != "ye"@) by {
        reveal_strlit("ye");
        assert(tok_code("ye"@) == 0x80790194000);
        lemma_code_distinct(q, "ye"@);
    }
    assert(q != "wu"@) by {
        reveal_strlit("wu");
        assert(tok_code("wu"@) == 0x807701d4000);
        lemma_code_distinct(q, "wu"@);
    }
    lemma_assoc_get_remove_other(assoc_remove(assoc_remove(zipped, "yi"@), "ye"@), "wu"@, q);
    lemma_assoc_get_remove_other(assoc_remove(zipped, "yi"@), "ye"@, q);
    lemma_assoc_get_remove_other(zipped, "yi"@, q);
    assert(syllabary_spec()[5] == syllabary_literal()[5]);
    assert(syllabary_spec()[5] == q);
    assert(zipped[5].0 == q);
    assert forall|j: int| 0 <= j < 5 implies (#[trigger] zipped[j]).0 != q by {
        assert(zipped[j].0 == syllabary_spec()[j]);
        assert(syllable_code_at(j) != 0x806b0184000);
        lemma_code_distinct(syllabary_spec()[j], q);
    }
    lemma_assoc_get_found(zipped, q, 5);
    assert(zipped[5].1 == hiragana_keys_spec()[5]);
    reveal_strlit("\u{304b}");
    assert(hiragana_keys_spec()[5] =~= seq!['\u{304b}']);

    let kq = seq!['\u{304b}'];
    assert(tok_code(kq) == 0x704b0000000);
    assert(roomaji_pairs(hiragana_keys_spec()) == assoc_put_zip(
        Seq::empty(),
        hiragana_keys_spec(),
        syllabary_spec(),
    ));
    lemma_assoc_get_put_zip(Seq::empty(), hiragana_keys_spec(), syllabary_spec(), kq);
    assert(hiragana_keys_spec()[5] == kq);
    assert forall|j: int| 5 < j < hiragana_keys_spec().len() implies hiragana_keys_spec()[j]
        != kq by {
        assert(hira_key_code_at(j) != 0x704b0000000);
        lemma_code_distinct(hiragana_keys_spec()[j], kq);
    }
    lemma_zip_last_found(hiragana_keys_spec(), syllabary_spec(), kq, 5);
    assert(zip_last_get(hiragana_keys_spec(), syllabary_spec(), kq) == Some(
        syllabary_spec()[5],
    ));
}

/// The hiragana entries for the syllable ki.
pub proof fn syllable_fact_6()
    ensures
        assoc_get(hiragana_pairs(), seq!['k', 'i']) == Some(seq!['\u{304d}']),
        assoc_get(roomaji_pairs(hiragana_keys_spec()), seq!['\u{304d}']) == Some(seq!['k', 'i']),
        is_letter('\u{304d}'),
        !is_glide_h('\u{304d}'),
        '\u{304d}' != '\u{3063}',
{
    lemma_syllabary_len();
    lemma_syllabary_is_literal();
    lemma_syllabary_codes();
    lemma_hira_key_codes();
    lemma_hira_fallback_codes();
    let q = seq!['k', 'i'];
    assert(tok_code(q) == 0x806b01a4000);
    let zipped = zip_pairs(syllabary_spec(), hiragana_keys_spec());
    let trimmed = assoc_remove(assoc_remove(assoc_remove(zipped, "yi"@), "ye"@), "wu"@);
    assert(hiragana_pairs() == assoc_put_all(trimmed, hiragana_fallbacks()));
    assert forall|fi: int| 0 <= fi < hiragana_fallbacks().len() implies (#[trigger]
        hiragana_fallbacks()[fi]).0 != q by {
        assert(hira_fallback_code_at(fi) != 0x806b01a4000);
        lemma_code_distinct(hiragana_fallbacks()[fi].0, q);
    }
    lemma_pairs_last_get_absent(hiragana_fallbacks(), q);
    lemma_assoc_get_put_all(trimmed, hiragana_fallbacks(), q);
    assert(q != "yi"@) by {
        reveal_strlit("yi");
        assert(tok_code("yi"@) == 0x807901a4000);
        lemma_code_distinct(q, "yi"@);
    }
    assert(q != "ye"@) by {
        reveal_strlit("ye");
        assert(tok_code("ye"@) == 0x80790194000);
        lemma_code_distinct(q, "ye"@);
    }
    assert(q != "wu"@) by {
        reveal_strlit("wu");
        assert(tok_code("wu"@) == 0x807701d4000);
        lemma_code_distinct(q, "wu"@);
    }
    lemma_assoc_get_remove_other(assoc_remove(assoc_remove(zipped, "yi"@), "ye"@), "wu"@, q);
    lemma_assoc_get_remove_other(assoc_remove(zipped, "yi"@), "ye"@, q);
    lemma_assoc_get_remove_other(zipped, "yi"@, q);
    assert(syllabary_spec()[6] == syllabary_literal()[6]);
    assert(syllabary_spec()[6] == q);
    assert(zipped[6].0 == q);
    assert forall|j: int| 0 <= j < 6 implies (#[trigger] zipped[j]).0 != q by {
        assert(zipped[j].0 == syllabary_spec()[j]);
        assert(syllable_code_at(j) != 0x806b01a4000);
        lemma_code_distinct(syllabary_spec()[j], q);
    }
    lemma_assoc_get_found(zipped, q, 6);
    assert(zipped[6].1 == hiragana_keys_spec()[6]);
    reveal_strlit("\u{304d}");
    assert(hiragana_keys_spec()[6] =~= seq!['\u{304d}']);

    let kq = seq!['\u{304d}'];
    assert(tok_code(kq) == 0x704d0000000);
    assert(roomaji_pairs(hiragana_keys_spec()) == assoc_put_zip(
        Seq::empty(),
        hiragana_keys_spec(),
        syllabary_spec(),
    ));
    lemma_assoc_get_put_zip(Seq::empty(), hiragana_keys_spec(), syllabary_spec(), kq);
    assert(hiragana_keys_spec()[6] == kq);
    assert forall|j: int| 6 < j < hiragana_keys_spec().len() implies hiragana_keys_spec()[j]
        != kq by {
        assert(hira_key_code_at(j) != 0x704d0000000);
        lemma_code_distinct(hiragana_keys_spec()[j], kq);
    }
    lemma_zip_last_found(hiragana_keys_spec(), syllabary_spec(), kq, 6);
    assert(zip_last_get(hiragana_keys_spec(), syllabary_spec(), kq) == Some(
        syllabary_spec()[6],
    ));
}

/// The hiragana entries for the syllable ku.
pub proof fn syllable_fact_7()
    ensures
        assoc_get(hiragana_pairs(), seq!['k', 'u']) == Some(seq!['\u{304f}']),
        assoc_get(roomaji_pairs(hiragana_keys_spec()), seq!['\u{304f}']) == Some(seq!['k', 'u']),
        is_letter('\u{304f}'),
        !is_glide_h('\u{304f}'),
        '\u{304f}' != '\u{3063}',
{
    lemma_syllabary_len();
    lemma_syllabary_is_literal();
    lemma_syllabary_codes();
    lemma_hira_key_codes();
    lemma_hira_fallback_codes();
    let q = seq!['k', 'u'];
    assert(tok_code(q) == 0x806b01d4000);
    let zipped = zip_pairs(syllabary_spec(), hiragana_keys_spec());
    let trimmed = assoc_remove(assoc_remove(assoc_remove(zipped, "yi"@), "ye"@), "wu"@);
    assert(hiragana_pairs() == assoc_put_all(trimmed, hiragana_fallbacks()));
    assert forall|fi: int| 0 <= fi < hiragana_fallbacks().len() implies (#[trigger]
        hiragana_fallbacks()[fi]).0 != q by {
        assert(hira_fallback_code_at(fi) != 0x806b01d4000);
        lemma_code_distinct(hiragana_fallbacks()[fi].0, q);
    }
    lemma_pairs_last_get_absent(hiragana_fallbacks(), q);
    lemma_assoc_get_put_all(trimmed, hiragana_fallbacks(), q);
    assert(q != "yi"@) by {
        reveal_strlit("yi");
        assert(tok_code("yi"@) == 0x807901a4000);
        lemma_code_distinct(q, "yi"@);
    }
    assert(q != "ye"@) by {
        reveal_strlit("ye");
        assert(tok_code("ye"@) == 0x80790194000);
        lemma_code_distinct(q, "ye"@);
    }
    assert(q != "wu"@) by {
        reveal_strlit("wu");
        assert(tok_code("wu"@) == 0x807701d4000);
        lemma_code_distinct(q, "wu"@);
    }
    lemma_assoc_get_remove_other(assoc_remove(assoc_remove(zipped, "yi"@), "ye"@), "wu"@, q);
    lemma_assoc_get_remove_other(assoc_remove(zipped, "yi"@), "ye"@, q);
    lemma_assoc_get_remove_other(zipped, "yi"@, q);
    assert(syllabary_spec()[7] == syllabary_literal()[7]);
    assert(syllabary_spec()[7] == q);
    assert(zipped[7].0 == q);
    assert forall|j: int| 0 <= j < 7 implies (#[trigger] zipped[j]).0 != q by {
        assert(zipped[j].0 == syllabary_spec()[j]);
        assert(syllable_code_at(j) != 0x806b01d4000);
        lemma_code_distinct(syllabary_spec()[j], q);
    }
    lemma_assoc_get_found(zipped, q, 7);
    assert(zipped[7].1 == hiragana_keys_spec()[7]);
    reveal_strlit("\u{304f}");
    assert(hiragana_keys_spec()[7] =~= seq!['\u{304f}']);

    let kq = seq!['\u{304f}'];
    assert(tok_code(kq) == 0x704f0000000);
    assert(roomaji_pairs(hiragana_keys_spec()) == assoc_put_zip(
        Seq::empty(),
        hiragana_keys_spec(),
        syllabary_spec(),
    ));
    lemma_assoc_get_put_zip(Seq::empty(), hiragana_keys_spec(), syllabary_spec(), kq);
    assert(hiragana_keys_spec()[7] == kq);
    assert forall|j: int| 7 < j < hiragana_keys_spec().len() implies hiragana_keys_spec()[j]
        != kq by {
        assert(hira_key_code_at(j) != 0x704f0000000);
        lemma_code_distinct(hiragana_keys_spec()[j], kq);
    }
    lemma_zip_last_found(hiragana_keys_spec(), syllabary_spec(), kq, 7);
    assert(zip_last_get(hiragana_keys_spec(), syllabary_spec(), kq) == Some(
        syllabary_spec()[7],
    ));
}

/// The hiragana entries for the syllable ke.
pub proof fn syllable_fact_8()
    ensures
        assoc_get(hiragana_pairs(), seq!['k', 'e']) == Some(seq!['\u{3051}']),
        assoc_get(roomaji_pairs(hiragana_keys_spec()), seq!['\u{3051}']) == Some(seq!['k', 'e']),
        is_letter('\u{3051}'),
        !is_glide_h('\u{3051}'),
        '\u{3051}' != '\u{3063}',
{
    lemma_syllabary_len();
    lemma_syllabary_is_literal();
    lemma_syllabary_codes();
    lemma_hira_key_codes();
    lemma_hira_fallback_codes();
    let q = seq!['k', 'e'];
    assert(tok_code(q) == 0x806b0194000);
    let zipped = zip_pairs(syllabary_spec(), hiragana_keys_spec());
    let trimmed = assoc_remove(assoc_remove(assoc_remove(zipped, "yi"@), "ye"@), "wu"@);
    assert(hiragana_pairs() == assoc_put_all(trimmed, hiragana_fallbacks()));
    assert forall|fi: int| 0 <= fi < hiragana_fallbacks().len() implies (#[trigger]
        hiragana_fallbacks()[fi]).0 != q by {
        assert(hira_fallback_code_at(fi) != 0x806b0194000);
        lemma_code_distinct(hiragana_fallbacks()[fi].0, q);
    }
    lemma_pairs_last_get_absent(hiragana_fallbacks(), q);
    lemma_assoc_get_put_all(trimmed, hiragana_fallbacks(), q);
    assert(q != "yi"@) by {
        reveal_strlit("yi");
        assert(tok_code("yi"@) == 0x807901a4000);
        lemma_code_distinct(q, "yi"@);
    }
    assert(q != "ye"@) by {
        reveal_strlit("ye");
        assert(tok_code("ye"@) == 0x80790194000);
        lemma_code_distinct(q, "ye"@);
    }
    assert(q != "wu"@) by {
        reveal_strlit("wu");
        assert(tok_code("wu"@) == 0x807701d4000);
        lemma_code_distinct(q, "wu"@);
    }
    lemma_assoc_get_remove_other(assoc_remove(assoc_remove(zipped, "yi"@), "ye"@), "wu"@, q);
    lemma_assoc_get_remove_other(assoc_remove(zipped, "yi"@), "ye"@, q);
    lemma_assoc_get_remove_other(zipped, "yi"@, q);
    assert(syllabary_spec()[8] == syllabary_literal()[8]);
    assert(syllabary_spec()[8] == q);
    assert(zipped[8].0 == q);
    assert forall|j: int| 0 <= j < 8 implies (#[trigger] zipped[j]).0 != q by {
        assert(zipped[j].0 == syllabary_spec()[j]);
        assert(syllable_code_at(j) != 0x806b0194000);
        lemma_code_distinct(syllabary_spec()[j], q);
    }
    lemma_assoc_get_found(zipped, q, 8);
    assert(zipped[8].1 == hiragana_keys_spec()[8]);
    reveal_strlit("\u{3051}");
    assert(hiragana_keys_spec()[8] =~= seq!['\u{3051}']);

    let kq = seq!['\u{3051}'];
    assert(tok_code(kq) == 0x70510000000);
    assert(roomaji_pairs(hiragana_keys_spec()) == assoc_put_zip(
        Seq::empty(),
        hiragana_keys_spec(),
        syllabary_spec(),
    ));
    lemma_assoc_get_put_zip(Seq::empty(), hiragana_keys_spec(), syllabary_spec(), kq);
    assert(hiragana_keys_spec()[8] == kq);
    assert forall|j: int| 8 < j < hiragana_keys_spec().len() implies hiragana_keys_spec()[j]
        != kq by {
        assert(hira_key_code_at(j) != 0x70510000000);
        lemma_code_distinct(hiragana_keys_spec()[j], kq);
    }
    lemma_zip_last_found(hiragana_keys_spec(), syllabary_spec(), kq, 8);
    assert(zip_last_get(hiragana_keys_spec(), syllabary_spec(), kq) == Some(
        syllabary_spec()[8],
    ));
}

/// The hiragana entries for the syllable ko.
pub proof fn syllable_fact_9()
    ensures
        assoc_get(hiragana_pairs(), seq!['k', 'o']) == Some(seq!['\u{3053}']),
        assoc_get(roomaji_pairs(hiragana_keys_spec()), seq!['\u{3053}']) == Some(seq!['k', 'o']),
        is_letter('\u{3053}'),
        !is_glide_h('\u{3053}'),
        '\u{3053}' != '\u{3063}',
{
    lemma_syllabary_len();
    lemma_syllabary_is_literal();
    lemma_syllabary_codes();
    lemma_hira_key_codes();
    lemma_hira_fallback_codes();
    let q = seq!['k', 'o'];
    assert(tok_code(q) == 0x806b01bc000);
    let zipped = zip_pairs(syllabary_spec(), hiragana_keys_spec());
    let trimmed = assoc_remove(assoc_remove(assoc_remove(zipped, "yi"@), "ye"@), "wu"@);
    assert(hiragana_pairs() == assoc_put_all(trimmed, hiragana_fallbacks()));
    assert forall|fi: int| 0 <= fi < hiragana_fallbacks().len() implies (#[trigger]
        hiragana_fallbacks()[fi]).0 != q by {
        assert(hira_fallback_code_at(fi) != 0x806b01bc000);
        lemma_code_distinct(hiragana_fallbacks()[fi].0, q);
    }
    lemma_pairs_last_get_absent(hiragana_fallbacks(), q);
    lemma_assoc_get_put_all(trimmed, hiragana_fallbacks(), q);
    assert(q != "yi"@) by {
        reveal_strlit("yi");
        assert(tok_code("yi"@) == 0x807901a4000);
        lemma_code_distinct(q, "yi"@);
    }
    assert(q != "ye"@) by {
        reveal_strlit("ye");
        assert(tok_code("ye"@) == 0x80790194000);
        lemma_code_distinct(q, "ye"@);
    }
    assert(q != "wu"@) by {
        reveal_strlit("wu");
        assert(tok_code("wu"@) == 0x807701d4000);
        lemma_code_distinct(q, "wu"@);
    }
    lemma_assoc_get_remove_other(assoc_remove(assoc_remove(zipped, "yi"@), "ye"@), "wu"@, q);
    lemma_assoc_get_remove_other(assoc_remove(zipped, "yi"@), "ye"@, q);
    lemma_assoc_get_remove_other(zipped, "yi"@, q);
    assert(syllabary_spec()[9] == syllabary_literal()[9]);
    assert(syllabary_spec()[9] == q);
    assert(zipped[9].0 == q);
    assert forall|j: int| 0 <= j < 9 implies (#[trigger] zipped[j]).0 != q by {
        assert(zipped[j].0 == syllabary_spec()[j]);
        assert(syllable_code_at(j) != 0x806b01bc000);
        lemma_code_distinct(syllabary_spec()[j], q);
    }
    lemma_assoc_get_found(zipped, q, 9);
    assert(zipped[9].1 == hiragana_keys_spec()[9]);
    reveal_strlit("\u{3053}");
    assert(hiragana_keys_spec()[9] =~= seq!['\u{3053}']);

    let kq = seq!['\u{3053}'];
    assert(tok_code(kq) == 0x70530000000);
    assert(roomaji_pairs(hiragana_keys_spec()) == assoc_put_zip(
        Seq::empty(),
        hiragana_keys_spec(),
        syllabary_spec(),
    ));
    lemma_assoc_get_put_zip(Seq::empty(), hiragana_keys_spec(), syllabary_spec(), kq);
    assert(hiragana_keys_spec()[9] == kq);
    assert forall|j: int| 9 < j < hiragana_keys_spec().len() implies hiragana_keys_spec()[j]
        != kq by {
        assert(hira_key_code_at(j) != 0x70530000000);
        lemma_code_distinct(hiragana_keys_spec()[j], kq);
    }
    lemma_zip_last_found(hiragana_keys_spec(), syllabary_spec(), kq, 9);
    assert(zip_last_get(hiragana_keys_spec(), syllabary_spec(), kq) == Some(
        syllabary_spec()[9],
    ));
}

/// The hiragana entries for the syllable shi.
pub proof fn syllable_fact_16()
    ensures
        assoc_get(hiragana_pairs(), seq!['s', 'h', 'i']) == Some(seq!['\u{3057}']),
        assoc_get(roomaji_pairs(hiragana_keys_spec()), seq!['\u{3057}']) == Some(seq!['s', 'h', 'i']),
        is_letter('\u{3057}'),
        !is_glide_h('\u{3057}'),
        '\u{3057}' != '\u{3063}',
{
    lemma_syllabary_len();
    lemma_syllabary_is_literal();
    lemma_syllabary_codes();
    lemma_hira_key_codes();
    lemma_hira_fallback_codes();
    let q = seq!['s', 'h', 'i'];
    assert(tok_code(q) == 0xc07301a0069);
    let zipped = zip_pairs(syllabary_spec(), hiragana_keys_spec());
    let trimmed = assoc_remove(assoc_remove(assoc_remove(zipped, "yi"@), "ye"@), "wu"@);
    assert(hiragana_pairs() == assoc_put_all(trimmed, hiragana_fallbacks()));
    assert forall|fi: int| 0 <= fi < hiragana_fallbacks().len() implies (#[trigger]
        hiragana_fallbacks()[fi]).0 != q by {
        assert(hira_fallback_code_at(fi) != 0xc07301a0069);
        lemma_code_distinct(hiragana_fallbacks()[fi].0, q);
    }
    lemma_pairs_last_get_absent(hiragana_fallbacks(), q);
    lemma_assoc_get_put_all(trimmed, hiragana_fallbacks(), q);
    assert(q != "yi"@) by {
        reveal_strlit("yi");
        assert(tok_code("yi"@) == 0x807901a4000);
        lemma_code_distinct(q, "yi"@);
    }
    assert(q != "ye"@) by {
        reveal_strlit("ye");
        assert(tok_code("ye"@) == 0x80790194000);
        lemma_code_distinct(q, "ye"@);
    }
    assert(q != "wu"@) by {
        reveal_strlit("wu");
        assert(tok_code("wu"@) == 0x807701d4000);
        lemma_code_distinct(q, "wu"@);
    }
    lemma_assoc_get_remove_other(assoc_remove(assoc_remove(zipped, "yi"@), "ye"@), "wu"@, q);
    lemma_assoc_get_remove_other(assoc_remove(zipped, "yi"@), "ye"@, q);
    lemma_assoc_get_remove_other(zipped, "yi"@, q);
    assert(syllabary_spec()[16] == syllabary_literal()[16]);
    assert(syllabary_spec()[16] == q);
    assert(zipped[16].0 == q);
    assert forall|j: int| 0 <= j < 16 implies (#[trigger] zipped[j]).0 != q by {
        assert(zipped[j].0 == syllabary_spec()[j]);
        assert(syllable_code_at(j) != 0xc07301a0069);
        lemma_code_distinct(syllabary_spec()[j], q);
    }
    lemma_assoc_get_found(zipped, q, 16);
    assert(zipped[16].1 == hiragana_keys_spec()[16]);
    reveal_strlit("\u{3057}");
    assert(hiragana_keys_spec()[16] =~= seq!['\u{3057}']);

    let kq = seq!['\u{3057}'];
    assert(tok_code(kq) == 0x70570000000);
    assert(roomaji_pairs(hiragana_keys_spec()) == assoc_put_zip(
        Seq::empty(),
        hiragana_keys_spec(),
        syllabary_spec(),
    ));
    lemma_assoc_get_put_zip(Seq::empty(), hiragana_keys_spec(), syllabary_spec(), kq);
    assert(hiragana_keys_spec()[16] == kq);
    assert forall|j: int| 16 < j < hiragana_keys_spec().len() implies hiragana_keys_spec()[j]
        != kq by {
        assert(hira_key_code_at(j) != 0x70570000000);
        lemma_code_distinct(hiragana_keys_spec()[j], kq);
    }
    lemma_zip_last_found(hiragana_keys_spec(), syllabary_spec(), kq, 16);
    assert(zip_last_get(hiragana_keys_spec(), syllabary_spec(), kq) == Some(
        syllabary_spec()[16],
    ));
}

/// The hiragana entries for the syllable ji.
pub proof fn syllable_fact_21()
    ensures
        assoc_get(hiragana_pairs(), seq!['j', 'i']) == Some(seq!['\u{3058}']),
        assoc_get(roomaji_pairs(hiragana_keys_spec()), seq!['\u{3058}']) == Some(seq!['j', 'i']),
        is_letter('\u{3058}'),
        !is_glide_h('\u{3058}'),
        '\u{3058}' != '\u{3063}',
{
    lemma_syllabary_len();
    lemma_syllabary_is_literal();
    lemma_syllabary_codes();
    lemma_hira_key_codes();
    lemma_hira_fallback_codes();
    let q = seq!['j', 'i'];
    assert(tok_code(q) == 0x806a01a4000);
    let zipped = zip_pairs(syllabary_spec(), hiragana_keys_spec());
    let trimmed = assoc_remove(assoc_remove(assoc_remove(zipped, "yi"@), "ye"@), "wu"@);
    assert(hiragana_pairs() == assoc_put_all(trimmed, hiragana_fallbacks()));
    assert forall|fi: int| 0 <= fi < hiragana_fallbacks().len() implies (#[trigger]
        hiragana_fallbacks()[fi]).0 != q by {
        assert(hira_fallback_code_at(fi) != 0x806a01a4000);
        lemma_code_distinct(hiragana_fallbacks()[fi].0, q);
    }
    lemma_pairs_last_get_absent(hiragana_fallbacks(), q);
    lemma_assoc_get_put_all(trimmed, hiragana_fallbacks(), q);
    assert(q != "yi"@) by {
        reveal_strlit("yi");
        assert(tok_code("yi"@) == 0x807901a4000);
        lemma_code_distinct(q, "yi"@);
    }
    assert(q != "ye"@) by {
        reveal_strlit("ye");
        assert(tok_code("ye"@) == 0x80790194000);
        lemma_code_distinct(q, "ye"@);
    }
    assert(q != "wu"@) by {
        reveal_strlit("wu");
        assert(tok_code("wu"@) == 0x807701d4000);
        lemma_code_distinct(q, "wu"@);
    }
    lemma_assoc_get_remove_other(assoc_remove(assoc_remove(zipped, "yi"@), "ye"@), "wu"@, q);
    lemma_assoc_get_remove_other(assoc_remove(zipped, "yi"@), "ye"@, q);
    lemma_assoc_get_remove_other(zipped, "yi"@, q);
    assert(syllabary_spec()[21] == syllabary_literal()[21]);
    assert(syllabary_spec()[21] == q);
    assert(zipped[21].0 == q);
    assert forall|j: int| 0 <= j < 21 implies (#[trigger] zipped[j]).0 != q by {
        assert(zipped[j].0 == syllabary_spec()[j]);
        assert(syllable_code_at(j) != 0x806a01a4000);
        lemma_code_distinct(syllabary_spec()[j], q);
    }
    lemma_assoc_get_found(zipped, q, 21);
    assert(zipped[21].1 == hiragana_keys_spec()[21]);
    reveal_strlit("\u{3058}");
    assert(hiragana_keys_spec()[21] =~= seq!['\u{3058}']);

    let kq = seq!['\u{3058}'];
    assert(tok_code(kq) == 0x70580000000);
    assert(roomaji_pairs(hiragana_keys_spec()) == assoc_put_zip(
        Seq::empty(),
        hiragana_keys_spec(),
        syllabary_spec(),
    ));
    lemma_assoc_get_put_zip(Seq::empty(), hiragana_keys_spec(), syllabary_spec(), kq);
    assert(hiragana_keys_spec()[21] == kq);
    assert forall|j: int| 21 < j < hiragana_keys_spec().len() implies hiragana_keys_spec()[j]
        != kq by {
        assert(hira_key_code_at(j) != 0x70580000000);
        lemma_code_distinct(hiragana_keys_spec()[j], kq);
    }
    lemma_zip_last_found(hiragana_keys_spec(), syllabary_spec(), kq, 21);
    assert(zip_last_get(hiragana_keys_spec(), syllabary_spec(), kq) == Some(
        syllabary_spec()[21],
    ));
}

/// The hiragana entries for the syllable chi.
pub proof fn syllable_fact_26()
    ensures
        assoc_get(hiragana_pairs(), seq!['c', 'h', 'i']) == Some(seq!['\u{3061}']),
        assoc_get(roomaji_pairs(hiragana_keys_spec()), seq!['\u{3061}']) == Some(seq!['c', 'h', 'i']),
        is_letter('\u{3061}'),
        !is_glide_h('\u{3061}'),
        '\u{3061}' != '\u{3063}',
{
    lemma_syllabary_len();
    lemma_syllabary_is_literal();
    lemma_syllabary_codes();
    lemma_hira_key_codes();
    lemma_hira_fallback_codes();
    let q = seq!['c', 'h', 'i'];
    assert(tok_code(q) == 0xc06301a0069);
    let zipped = zip_pairs(syllabary_spec(), hiragana_keys_spec());
    let trimmed = assoc_remove(assoc_remove(assoc_remove(zipped, "yi"@), "ye"@), "wu"@);
    assert(hiragana_pairs() == assoc_put_all(trimmed, hiragana_fallbacks()));
    assert forall|fi: int| 0 <= fi < hiragana_fallbacks().len() implies (#[trigger]
        hiragana_fallbacks()[fi]).0 != q by {
        assert(hira_fallback_code_at(fi) != 0xc06301a0069);
        lemma_code_distinct(hiragana_fallbacks()[fi].0, q);
    }
    lemma_pairs_last_get_absent(hiragana_fallbacks(), q);
    lemma_assoc_get_put_all(trimmed, hiragana_fallbacks(), q);
    assert(q != "yi"@) by {
        reveal_strlit("yi");
        assert(tok_code("yi"@) == 0x807901a4000);
        lemma_code_distinct(q, "yi"@);
    }
    assert(q != "ye"@) by {
        reveal_strlit("ye");
        assert(tok_code("ye"@) == 0x80790194000);
        lemma_code_distinct(q, "ye"@);
    }
    assert(q != "wu"@) by {
        reveal_strlit("wu");
        assert(tok_code("wu"@) == 0x807701d4000);
        lemma_code_distinct(q, "wu"@);
    }
    lemma_assoc_get_remove_other(assoc_remove(assoc_remove(zipped, "yi"@), "ye"@), "wu"@, q);
    lemma_assoc_get_remove_other(assoc_remove(zipped, "yi"@), "ye"@, q);
    lemma_assoc_get_remove_other(zipped, "yi"@, q);
    assert(syllabary_spec()[26] == syllabary_literal()[26]);
    assert(syllabary_spec()[26] == q);
    assert(zipped[26].0 == q);
    assert forall|j: int| 0 <= j < 26 implies (#[trigger] zipped[j]).0 != q by {
        assert(zipped[j].0 == syllabary_spec()[j]);
        assert(syllable_code_at(j) != 0xc06301a0069);
        lemma_code_distinct(syllabary_spec()[j], q);
    }
    lemma_assoc_get_found(zipped, q, 26);
    assert(zipped[26].1 == hiragana_keys_spec()[26]);
    reveal_strlit("\u{3061}");
    assert(hiragana_keys_spec()[26] =~= seq!['\u{3061}']);

    let kq = seq!['\u{3061}'];
    assert(tok_code(kq) == 0x70610000000);
    assert(roomaji_pairs(hiragana_keys_spec()) == assoc_put_zip(
        Seq::empty(),
        hiragana_keys_spec(),
        syllabary_spec(),
    ));
    lemma_assoc_get_put_zip(Seq::empty(), hiragana_keys_spec(), syllabary_spec(), kq);
    assert(hiragana_keys_spec()[26] == kq);
    assert forall|j: int| 26 < j < hiragana_keys_spec().len() implies hiragana_keys_spec()[j]
        != kq by {
        assert(hira_key_code_at(j) != 0x70610000000);
        lemma_code_distinct(hiragana_keys_spec()[j], kq);
    }
    lemma_zip_last_found(hiragana_keys_spec(), syllabary_spec(), kq, 26);
    assert(zip_last_get(hiragana_keys_spec(), syllabary_spec(), kq) == Some(
        syllabary_spec()[26],
    ));
}

/// The hiragana entries for the syllable tsu.
pub proof fn syllable_fact_27()
    ensures
        assoc_get(hiragana_pairs(), seq!['t', 's', 'u']) == Some(seq!['\u{3064}']),
        assoc_get(roomaji_pairs(hiragana_keys_spec()), seq!['\u{3064}']) == Some(seq!['t', 's', 'u']),
        is_letter('\u{3064}'),
        !is_glide_h('\u{3064}'),
        '\u{3064}' != '\u{3063}',
{
    lemma_syllabary_len();
    lemma_syllabary_is_literal();
    lemma_syllabary_codes();
    lemma_hira_key_codes();
    lemma_hira_fallback_codes();
    let q = seq!['t', 's', 'u'];
    assert(tok_code(q) == 0xc07401cc075);
    let zipped = zip_pairs(syllabary_spec(), hiragana_keys_spec());
    let trimmed = assoc_remove(assoc_remove(assoc_remove(zipped, "yi"@), "ye"@), "wu"@);
    assert(hiragana_pairs() == assoc_put_all(trimmed, hiragana_fallbacks()));
    assert forall|fi: int| 0 <= fi < hiragana_fallbacks().len() implies (#[trigger]
        hiragana_fallbacks()[fi]).0 != q by {
        assert(hira_fallback_code_at(fi) != 0xc07401cc075);
        lemma_code_distinct(hiragana_fallbacks()[fi].0, q);
    }
    lemma_pairs_last_get_absent(hiragana_fallbacks(), q);
    lemma_assoc_get_put_all(trimmed, hiragana_fallbacks(), q);
    assert(q != "yi"@) by {
        reveal_strlit("yi");
        assert(tok_code("yi"@) == 0x807901a4000);
        lemma_code_distinct(q, "yi"@);
    }
    assert(q != "ye"@) by {
        reveal_strlit("ye");
        assert(tok_code("ye"@) == 0x80790194000);
        lemma_code_distinct(q, "ye"@);
    }
    assert(q != "wu"@) by {
        reveal_strlit("wu");
        assert(tok_code("wu"@) == 0x807701d4000);
        lemma_code_distinct(q, "wu"@);
    }
    lemma_assoc_get_remove_other(assoc_remove(assoc_remove(zipped, "yi"@), "ye"@), "wu"@, q);
    lemma_assoc_get_remove_other(assoc_remove(zipped, "yi"@), "ye"@, q);
    lemma_assoc_get_remove_other(zipped, "yi"@, q);
    assert(syllabary_spec()[27] == syllabary_literal()[27]);
    assert(syllabary_spec()[27] == q);
    assert(zipped[27].0 == q);
    assert forall|j: int| 0 <= j < 27 implies (#[trigger] zipped[j]).0 != q by {
        assert(zipped[j].0 == syllabary_spec()[j]);
        assert(syllable_code_at(j) != 0xc07401cc075);
        lemma_code_distinct(syllabary_spec()[j], q);
    }
    lemma_assoc_get_found(zipped, q, 27);
    assert(zipped[27].1 == hiragana_keys_spec()[27]);
    reveal_strlit("\u{3064}");
    assert(hiragana_keys_spec()[27] =~= seq!['\u{3064}']);

    let kq = seq!['\u{3064}'];
    assert(tok_code(kq) == 0x70640000000);
    assert(roomaji_pairs(hiragana_keys_spec()) == assoc_put_zip(
        Seq::empty(),
        hiragana_keys_spec(),
        syllabary_spec(),
    ));
    lemma_assoc_get_put_zip(Seq::empty(), hiragana_keys_spec(), syllabary_spec(), kq);
    assert(hiragana_keys_spec()[27] == kq);
    assert forall|j: int| 27 < j < hiragana_keys_spec().len() implies hiragana_keys_spec()[j]
        != kq by {
        assert(hira_key_code_at(j) != 0x70640000000);
        lemma_code_distinct(hiragana_keys_spec()[j], kq);
    }
    lemma_zip_last_found(hiragana_keys_spec(), syllabary_spec(), kq, 27);
    assert(zip_last_get(hiragana_keys_spec(), syllabary_spec(), kq) == Some(
        syllabary_spec()[27],
    ));
}

/// The hiragana entries for the syllable fu.
pub proof fn syllable_fact_42()
    ensures
        assoc_get(hiragana_pairs(), seq!['f', 'u']) == Some(seq!['\u{3075}']),
        assoc_get(roomaji_pairs(hiragana_keys_spec()), seq!['\u{3075}']) == Some(seq!['f', 'u']),
        is_letter('\u{3075}'),
        !is_glide_h('\u{3075}'),
        '\u{3075}' != '\u{3063}',
{
    lemma_syllabary_len();
    lemma_syllabary_is_literal();
    lemma_syllabary_codes();
    lemma_hira_key_codes();
    lemma_hira_fallback_codes();
    let q = seq!['f', 'u'];
    assert(tok_code(q) == 0x806601d4000);
    let zipped = zip_pairs(syllabary_spec(), hiragana_keys_spec());
    let trimmed = assoc_remove(assoc_remove(assoc_remove(zipped, "yi"@), "ye"@), "wu"@);
    assert(hiragana_pairs() == assoc_put_all(trimmed, hiragana_fallbacks()));
    assert forall|fi: int| 0 <= fi < hiragana_fallbacks().len() implies (#[trigger]
        hiragana_fallbacks()[fi]).0 != q by {
        assert(hira_fallback_code_at(fi) != 0x806601d4000);
        lemma_code_distinct(hiragana_fallbacks()[fi].0, q);
    }
    lemma_pairs_last_get_absent(hiragana_fallbacks(), q);
    lemma_assoc_get_put_all(trimmed, hiragana_fallbacks(), q);
    assert(q != "yi"@) by {
        reveal_strlit("yi");
        assert(tok_code("yi"@) == 0x807901a4000);
        lemma_code_distinct(q, "yi"@);
    }
    assert(q != "ye"@) by {
        reveal_strlit("ye");
        assert(tok_code("ye"@) == 0x80790194000);
        lemma_code_distinct(q, "ye"@);
    }
    assert(q != "wu"@) by {
        reveal_strlit("wu");
        assert(tok_code("wu"@) == 0x807701d4000);
        lemma_code_distinct(q, "wu"@);
    }
    lemma_assoc_get_remove_other(assoc_remove(assoc_remove(zipped, "yi"@), "ye"@), "wu"@, q);
    lemma_assoc_get_remove_other(assoc_remove(zipped, "yi"@), "ye"@, q);
    lemma_assoc_get_remove_other(zipped, "yi"@, q);
    assert(syllabary_spec()[42] == syllabary_literal()[42]);
    assert(syllabary_spec()[42] == q);
    assert(zipped[42].0 == q);
    assert forall|j: int| 0 <= j < 42 implies (#[trigger] zipped[j]).0 != q by {
        assert(zipped[j].0 == syllabary_spec()[j]);
        assert(syllable_code_at(j) != 0x806601d4000);
        lemma_code_distinct(syllabary_spec()[j], q);
    }
    lemma_assoc_get_found(zipped, q, 42);
    assert(zipped[42].1 == hiragana_keys_spec()[42]);
    reveal_strlit("\u{3075}");
    assert(hiragana_keys_spec()[42] =~= seq!['\u{3075}']);

    let kq = seq!['\u{3075}'];
    assert(tok_code(kq) == 0x70750000000);
    assert(roomaji_pairs(hiragana_keys_spec()) == assoc_put_zip(
        Seq::empty(),
        hiragana_keys_spec(),
        syllabary_spec(),
    ));
    lemma_assoc_get_put_zip(Seq::empty(), hiragana_keys_spec(), syllabary_spec(), kq);
    assert(hiragana_keys_spec()[42] == kq);
    assert forall|j: int| 42 < j < hiragana_keys_spec().len() implies hiragana_keys_spec()[j]
        != kq by {
        assert(hira_key_code_at(j) != 0x70750000000);
        lemma_code_distinct(hiragana_keys_spec()[j], kq);
    }
    lemma_zip_last_found(hiragana_keys_spec(), syllabary_spec(), kq, 42);
    assert(zip_last_get(hiragana_keys_spec(), syllabary_spec(), kq) == Some(
        syllabary_spec()[42],
    ));
}

} // verus!
