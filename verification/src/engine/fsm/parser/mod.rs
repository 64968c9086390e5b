//! Counting the lines of one file: its leading documentation block, then the
//! state machine of [`state`] over the rest.
pub mod helpers;
pub mod state;

use vstd::prelude::*;
use vstd::slice::slice_subrange;

use super::model::MAX_CONTENT_LEN;
use super::model::children_in_range;
use super::model::count_block_spec;
use super::model::count_file_spec;
use super::model::doc_slack;
use super::model::doc_block;
use crate::engine::language::lemma_registry_prefixes;
use super::model::parser_init;
use super::model::prefixes_nonempty;
use super::types::Counts;
use super::types::FileResult;
use super::types::LineCounts;
use super::types::children_total;
use super::types::counts_total;
use super::types::grand_total;
use super::types::zero_counts_view;
use crate::engine::language::LanguageDef;
use crate::engine::language::MARKDOWN;
use crate::engine::language::StructuredFormat;
use helpers::children_view;
use helpers::leading_doc_child;
use helpers::zero_counts;
use state::Parser;

verus! {

/// Count the lines of `content` as language `lang`: its code, comment and blank
/// lines, and the lines of each embedded child block.
///
/// `lang` is a language of text lines: a notebook is read by the caller into
/// its cells, which `count_jupyter_cells` counts. A leading documentation
/// block taken with an empty prefix can be one byte longer than the text (its
/// last line gains a newline), which the bound on the length allows for.
pub fn count_file(content: &[u8], lang: &LanguageDef) -> (r: FileResult)
    requires
        content.len() <= MAX_CONTENT_LEN + 1,
        prefixes_nonempty(lang@) || content.len() <= MAX_CONTENT_LEN,
        lang@.structured_format == StructuredFormat::Text,
    ensures
        r@ == count_file_spec(content@, lang@),
        grand_total(r@) <= 3 * content.len() + 4,
        prefixes_nonempty(lang@) ==> grand_total(r@) <= 3 * content.len() + 1,
        children_in_range(r@.children),
    decreases content.len() + doc_slack(lang@), super::model::doc_rank(lang@), 5nat, 0nat,
{
    let counts = zero_counts();
    let mut children: Vec<(usize, LineCounts)> = Vec::new();
    let mut rest = content;
    let ghost prefixes = lang@.leading_doc_prefixes;
    let ghost doc = if prefixes.len() > 0 {
        doc_block(content@, prefixes, 0)
    } else {
        (seq![], 0int)
    };
    let ghost mut doc_total: int = 0;
    proof {
        lemma_registry_prefixes(MARKDOWN as int);
    }
    if lang.leading_doc_prefixes.len() > 0 {
        assert(lang.leading_doc_prefixes@.map_values(|p: Vec<u8>| p@) =~= prefixes);
        let (doc_child, start_pos) = leading_doc_child(content, &lang.leading_doc_prefixes);
        if let Some(c) = doc_child {
            children.push((MARKDOWN, c));
            rest = slice_subrange(content, start_pos, content.len());
            assert(rest@ =~= content@.skip(start_pos as int));
            assert(children_view(children@) =~= seq![(MARKDOWN, c@)]);
            assert(children_total(seq![(MARKDOWN, c@)]) == counts_total(c@)) by {
                assert(seq![(MARKDOWN, c@)].drop_last() =~= Seq::<(usize, Counts)>::empty());
                reveal_with_fuel(children_total, 2);
            }
            proof {
                doc_total = counts_total(c@) as int;
            }
        }
    } else {
        assert(children_view(children@) =~= Seq::<(usize, Counts)>::empty());
    }
    proof {
        if doc.0.len() > 0 {
            assert(0 <= doc.1 <= content.len());
            assert(children_view(children@) == seq![(MARKDOWN, super::model::aggregate(count_block_spec(doc.0, crate::engine::language::language_view(MARKDOWN as int))))]);
            assert(rest@ == content@.skip(doc.1));
        } else {
            assert(rest@ == content@);
            assert(children_view(children@) == Seq::<(usize, Counts)>::empty());
        }
    }
    if rest.len() == 0 {
        let r = FileResult { counts, children };
        assert(r@.counts == zero_counts_view());
        return r;
    }
    let parser = Parser::new(rest, lang, counts, children);
    assert(parser.st() == parser_init(children_view(children@)));
    parser.run()
}

} // verus!
