//! Matching the token that starts at the current position: the region whose
//! opening delimiter is the longest one found there.
use vstd::prelude::*;

use super::types::TokenMatch;
use crate::engine::language::LanguageDef;
use crate::engine::language::RegionKind;
use crate::engine::language::RegionView;

verus! {

/// `s` begins with `p`.
pub open spec fn starts_with(s: Seq<u8>, p: Seq<u8>) -> bool {
    p.len() <= s.len() && s.take(p.len() as int) == p
}

/// The opening delimiter of `r` is non-empty and starts `rest`.
pub open spec fn opens_here(rest: Seq<u8>, r: RegionView) -> bool {
    r.open.len() > 0 && rest.len() > 0 && r.open[0] == rest[0] && starts_with(rest, r.open)
}

/// Among the first `k` regions, the one with the longest opening delimiter that
/// starts `rest`; of equally long ones, the first.
pub open spec fn best_region(rest: Seq<u8>, regions: Seq<RegionView>, k: int) -> Option<int>
    decreases k,
{
    if k <= 0 {
        None
    } else {
        let prev = best_region(rest, regions, k - 1);
        let prev_len = match prev {
            Some(i) => regions[i].open.len() as int,
            None => 0,
        };
        if opens_here(rest, regions[k - 1]) && regions[k - 1].open.len() > prev_len {
            Some(k - 1)
        } else {
            prev
        }
    }
}

/// The token region `i` opens: a comment region closed by a newline is a line comment.
pub open spec fn token_of(regions: Seq<RegionView>, i: int) -> TokenMatch {
    match regions[i].kind {
        RegionKind::Comment { .. } => if regions[i].close == seq![10u8] {
            TokenMatch::LineComment
        } else {
            TokenMatch::BlockComment { region: i as usize }
        },
        RegionKind::String { .. } => TokenMatch::StringLiteral { region: i as usize },
        RegionKind::Child { .. } => TokenMatch::Child { region: i as usize },
    }
}

/// The token at the start of `rest` and the number of bytes it spans; any other
/// byte is a one-byte `Other` token.
pub open spec fn match_token_spec(rest: Seq<u8>, regions: Seq<RegionView>) -> (TokenMatch, int) {
    match best_region(rest, regions, regions.len() as int) {
        Some(i) => (token_of(regions, i), regions[i].open.len() as int),
        None => (TokenMatch::Other, 1),
    }
}

pub proof fn lemma_best_region_bounds(rest: Seq<u8>, regions: Seq<RegionView>, k: int)
    requires
        k <= regions.len(),
    ensures
        best_region(rest, regions, k) matches Some(i) ==> 0 <= i < k && opens_here(
            rest,
            regions[i],
        ),
    decreases k,
{
    if k > 0 {
        lemma_best_region_bounds(rest, regions, k - 1);
    }
}

/// The token that starts `rest`, and its length.
pub fn match_token(rest: &[u8], lang: &LanguageDef) -> (r: (TokenMatch, usize))
    ensures
        (r.0, r.1 as int) == match_token_spec(rest@, lang@.regions),
        r.1 >= 1,
        r.1 <= rest.len() || r.1 == 1,
        r.0 != TokenMatch::Other ==> r.1 <= rest.len(),
        match r.0 {
            TokenMatch::BlockComment { region } => region < lang@.regions.len()
                && lang@.regions[region as int].kind is Comment
                && lang@.regions[region as int].open.len() > 0,
            TokenMatch::StringLiteral { region } => region < lang@.regions.len()
                && lang@.regions[region as int].kind is String,
            TokenMatch::Child { region } => region < lang@.regions.len()
                && lang@.regions[region as int].kind is Child,
            _ => true,
        },
{
    let ghost regions = lang@.regions;
    if rest.len() == 0 {
        proof {
            lemma_best_region_bounds(rest@, regions, regions.len() as int);
        }
        return (TokenMatch::Other, 1);
    }
    let first = rest[0];
    let mut best: Option<usize> = None;
    let mut best_len: usize = 0;
    let mut k: usize = 0;
    while k < lang.regions.len()
        invariant
            k <= lang.regions.len(),
            regions == lang@.regions,
            rest.len() > 0,
            first == rest@[0],
            best == match best_region(rest@, regions, k as int) {
                Some(i) => Some(i as usize),
                None => None,
            },
            best_len as int == match best_region(rest@, regions, k as int) {
                Some(i) => regions[i].open.len() as int,
                None => 0,
            },
            best matches Some(i) ==> i < k && opens_here(rest@, regions[i as int]),
        decreases lang.regions.len() - k,
    {
        let region = &lang.regions[k];
        assert(region@ == regions[k as int]);
        let open = &region.open;
        if open.len() > 0 && open[0] == first && open.len() > best_len && open.len() <= rest.len() {
            let mut j: usize = 0;
            let mut same = true;
            while j < open.len()
                invariant
                    j <= open.len(),
                    open.len() <= rest.len(),
                    same == (forall|m: int| 0 <= m < j ==> open@[m] == rest@[m]),
                decreases open.len() - j,
            {
                if open[j] != rest[j] {
                    same = false;
                }
                j += 1;
            }
            if same {
                assert(rest@.take(open@.len() as int) =~= open@);
                best = Some(k);
                best_len = open.len();
            } else {
                assert(!starts_with(rest@, open@)) by {
                    if starts_with(rest@, open@) {
                        assert forall|m: int| 0 <= m < open@.len() implies open@[m] == rest@[m] by {
                            assert(rest@.take(open@.len() as int)[m] == rest@[m]);
                        }
                    }
                }
            }
        }
        k += 1;
    }
    proof {
        lemma_best_region_bounds(rest@, regions, regions.len() as int);
    }
    match best {
        Some(i) => {
            assert(lang.regions@[i as int]@ == regions[i as int]);
            let tok = match lang.regions[i].kind {
                RegionKind::Comment { .. } => {
                    let close = &lang.regions[i].close;
                    if close.len() == 1 && close[0] == 10u8 {
                        assert(close@ =~= seq![10u8]);
                        TokenMatch::LineComment
                    } else {
                        assert(close@ != seq![10u8]) by {
                            if close@ == seq![10u8] {
                                assert(close@[0] == 10u8);
                            }
                        }
                        TokenMatch::BlockComment { region: i }
                    }
                },
                RegionKind::String { .. } => TokenMatch::StringLiteral { region: i },
                RegionKind::Child { .. } => TokenMatch::Child { region: i },
            };
            (tok, best_len)
        },
        None => (TokenMatch::Other, 1),
    }
}

} // verus!
