//! The classifier's state machine over the bytes of one file.
use vstd::prelude::*;
use vstd::slice::slice_subrange;

use super::super::classify::classify_prefix;
use super::super::classify::emit;
use super::super::classify::emit_counts;
use super::super::model::MAX_CONTENT_LEN;
use super::super::model::Outcome;
use super::super::model::ParserView;
use super::super::model::block_newline;
use super::super::model::child_info;
use super::super::model::children_in_range;
use super::super::model::comment_flags;
use super::super::model::emit_and_return;
use super::super::model::finish_spec;
use super::super::model::first_byte_or;
use super::super::model::open_child_spec;
use super::super::model::push_before_close_spec;
use super::super::model::push_child_spec;
use super::super::model::reset_line;
use super::super::model::result_of;
use super::super::model::run_measure;
use super::super::model::run_spec;
use super::super::model::step_flat_block_spec;
use super::super::model::step_in_child_spec;
use super::super::model::step_in_string_spec;
use super::super::model::step_line_comment_spec;
use super::super::model::step_nested_block_spec;
use super::super::model::step_normal_spec;
use super::super::model::step_spec;
use super::super::model::step_token_spec;
use super::super::model::string_escape;
use super::super::model::string_newline;
use super::super::model::doc_rank;
use super::super::token::match_token;
use super::super::token::match_token_spec;
use super::super::token::starts_with;
use super::super::types::Counts;
use super::super::types::FileResult;
use super::super::types::FileResultView;
use super::super::types::LineCounts;
use super::super::types::LineType;
use super::super::types::ParseState;
use super::super::types::TokenMatch;
use super::super::types::children_total;
use super::super::types::counts_total;
use super::super::types::grand_total;
use super::helpers::ChildOpenResult;
use super::helpers::children_view;
use super::helpers::default_line_type;
use super::helpers::detect_child_open;
use super::helpers::push_child_before_close;
use super::helpers::push_child_result;
use super::helpers::flush_child;
use crate::engine::language::DefaultMode;
use crate::engine::language::Detection;
use crate::engine::language::LANGUAGE_COUNT;
use crate::engine::language::LanguageDef;
use crate::engine::language::LanguageView;
use crate::engine::language::RegionKind;
use crate::engine::scanner::find_interesting;
use crate::engine::scanner::find_nested_block;
use crate::engine::scanner::find_newline;
use crate::engine::scanner::find_newline_or;
use crate::engine::scanner::find_string_end;
use crate::engine::scanner::find_string_end_no_escape;
use crate::engine::scanner::first_of;
use crate::engine::scanner::lemma_first_of;

verus! {

/// What a step decides.
pub enum StepOutcome {
    Continue,
    Break,
    Return(FileResult),
}

impl View for StepOutcome {
    type V = Outcome;

    open spec fn view(&self) -> Outcome {
        match self {
            StepOutcome::Continue => Outcome::Continue,
            StepOutcome::Break => Outcome::Break,
            StepOutcome::Return(r) => Outcome::Return(r@),
        }
    }
}

/// The regions a parse state names exist and have the right kind.
pub open spec fn parse_valid(lang: LanguageView, p: ParseState) -> bool {
    match p {
        ParseState::BlockComment { region, .. } => region < lang.regions.len()
            && lang.regions[region as int].kind is Comment && lang.regions[region as int].open.len()
            > 0,
        ParseState::InString { region } => region < lang.regions.len()
            && lang.regions[region as int].kind is String,
        ParseState::InChild { region, child_lang } => region < lang.regions.len()
            && lang.regions[region as int].kind is Child && (child_lang matches Some(id) ==> id
            < LANGUAGE_COUNT),
        _ => true,
    }
}

/// A step's resulting state and outcome agree with its spec; after a return the
/// state no longer matters.
pub open spec fn step_matches(s: ParserView, o: Outcome, expected: (ParserView, Outcome)) -> bool {
    match expected.1 {
        Outcome::Return(r) => o == Outcome::Return(r),
        _ => s == expected.0 && o == expected.1,
    }
}

/// `a` when it is at most `b`, else `b`.
pub open spec fn min_int(a: int, b: int) -> int {
    if a <= b {
        a
    } else {
        b
    }
}

/// The classifier over the bytes of one file.
pub(crate) struct Parser<'a> {
    pub(crate) content: &'a [u8],
    pub(crate) lang: &'a LanguageDef,
    pub(crate) counts: LineCounts,
    pub(crate) children: Vec<(usize, LineCounts)>,
    pub(crate) parse: ParseState,
    pub(crate) line_type: LineType,
    pub(crate) pos: usize,
    pub(crate) block_started_this_line: bool,
    pub(crate) close_line_is_code: bool,
    pub(crate) child_delimiter_line_type: LineType,
    pub(crate) child_buf: Vec<u8>,
    /// Lines counted before the parser started (a leading documentation block).
    pub(crate) initial: Ghost<int>,
}

impl<'a> Parser<'a> {
    /// The state of the parser.
    pub(crate) open spec fn st(&self) -> ParserView {
        ParserView {
            counts: self.counts@,
            children: children_view(self.children@),
            parse: self.parse,
            line_type: self.line_type,
            pos: self.pos as int,
            block_started_this_line: self.block_started_this_line,
            close_line_is_code: self.close_line_is_code,
            child_delimiter_line_type: self.child_delimiter_line_type,
            child_buf: self.child_buf@,
        }
    }

    /// Lines counted so far, plus three for every byte waiting in the child
    /// buffer and for an open child region.
    pub(crate) open spec fn potential(&self) -> int {
        counts_total(self.counts@) + children_total(children_view(self.children@)) + 3
            * self.child_buf@.len() + if self.parse is InChild {
            3int
        } else {
            0int
        }
    }

    /// Facts that hold of every state.
    pub(crate) open spec fn base_inv(&self) -> bool {
        &&& self.content.len() <= MAX_CONTENT_LEN + 1
        &&& self.initial@ >= 0
        &&& self.initial@ + 3 * self.content.len() + 1 < u32::MAX
        &&& parse_valid(self.lang@, self.parse)
        &&& children_in_range(children_view(self.children@))
        &&& self.pos <= self.content.len() + 1
        &&& (self.parse is InChild ==> self.child_buf@.len() < self.content.len())
    }

    /// Facts that hold between steps.
    pub(crate) open spec fn inv(&self) -> bool {
        &&& self.base_inv()
        &&& (self.parse is InChild ==> self.child_buf@.len() < self.pos <= self.content.len())
        &&& self.potential() <= self.initial@ + 3 * min_int(
            self.pos as int,
            self.content.len() as int,
        )
    }

    /// Facts that hold when the input is exhausted.
    pub(crate) open spec fn inv_end(&self) -> bool {
        &&& self.base_inv()
        &&& self.potential() <= self.initial@ + 3 * self.content.len()
    }

    /// What every step guarantees about its outcome.
    pub(crate) open spec fn step_post(&self, old: &Self, o: Outcome) -> bool {
        &&& self.content == old.content
        &&& self.lang == old.lang
        &&& self.initial == old.initial
        &&& match o {
            Outcome::Continue => self.inv() && run_measure(self.content.len() as int, self.st())
                < run_measure(self.content.len() as int, old.st()),
            Outcome::Break => self.inv_end(),
            Outcome::Return(r) => grand_total(r) <= self.initial@ + 3 * self.content.len() + 1
                && children_in_range(r.children),
        }
    }

    /// A parser at the start of `content`, with counts and child blocks found so far.
    pub(crate) fn new(
        content: &'a [u8],
        lang: &'a LanguageDef,
        counts: LineCounts,
        children: Vec<(usize, LineCounts)>,
    ) -> (p: Self)
        requires
            content.len() <= MAX_CONTENT_LEN + 1,
            counts_total(counts@) + children_total(children_view(children@)) + 3 * content.len()
                + 1 < u32::MAX,
            children_in_range(children_view(children@)),
        ensures
            p.st() == (ParserView {
                counts: counts@,
                children: children_view(children@),
                parse: ParseState::Normal,
                line_type: LineType::Blank,
                pos: 0,
                block_started_this_line: false,
                close_line_is_code: false,
                child_delimiter_line_type: LineType::Code,
                child_buf: seq![],
            }),
            p.content == content,
            p.lang == lang,
            p.inv(),
            p.initial@ == counts_total(counts@) + children_total(children_view(children@)),
    {
        let line_type = default_line_type(lang);
        let p = Parser {
            content,
            lang,
            counts,
            children,
            parse: ParseState::Normal,
            line_type,
            pos: 0,
            block_started_this_line: false,
            close_line_is_code: false,
            child_delimiter_line_type: LineType::Code,
            child_buf: Vec::new(),
            initial: Ghost((counts_total(counts@) + children_total(children_view(children@))) as int),
        };
        assert(p.st().child_buf =~= Seq::<u8>::empty());
        p
    }

    /// Run the classifier to the end of the input.
    pub(crate) fn run(self) -> (r: FileResult)
        requires
            self.inv(),
        ensures
            r@ == run_spec(self.content@, self.lang@, self.st()),
            grand_total(r@) <= self.initial@ + 3 * self.content.len() + 1,
            children_in_range(r@.children),
        decreases self.content.len(), doc_rank(self.lang@), 4nat, 0nat,
    {
        let mut p = self;
        let ghost content = p.content@;
        let ghost lang = p.lang@;
        let ghost start = p.st();
        let ghost initial = p.initial@;
        let ghost len = p.content.len();
        while p.pos < p.content.len()
            invariant
                p.inv(),
                p.content@ == content,
                p.lang@ == lang,
                p.initial@ == initial,
                p.content.len() == len,
                content == self.content@,
                lang == self.lang@,
                initial == self.initial@,
                len == self.content.len(),
                start == self.st(),
                run_spec(content, lang, start) == run_spec(content, lang, p.st()),
            decreases run_measure(p.content.len() as int, p.st()),
        {
            match p.step() {
                StepOutcome::Continue => {},
                StepOutcome::Break => {
                    return p.finish_after_loop();
                },
                StepOutcome::Return(result) => {
                    return result;
                },
            }
        }
        p.finish_after_loop()
    }

    /// The counts and the child blocks found, leaving none behind.
    fn take_result(&mut self) -> (r: FileResult)
        ensures
            r@ == result_of(old(self).st()),
            final(self).content == old(self).content,
            final(self).lang == old(self).lang,
            final(self).initial == old(self).initial,
    {
        let mut children: Vec<(usize, LineCounts)> = Vec::new();
        std::mem::swap(&mut children, &mut self.children);
        FileResult { counts: self.counts, children }
    }

    /// Start a new line outside any region.
    fn reset_after_newline(&mut self)
        ensures
            final(self).st() == reset_line(old(self).st()),
            final(self).content == old(self).content,
            final(self).lang == old(self).lang,
            final(self).initial == old(self).initial,
            final(self).pos == old(self).pos,
            final(self).counts == old(self).counts,
            final(self).children == old(self).children,
            final(self).child_buf == old(self).child_buf,
    {
        self.parse = ParseState::Normal;
        self.line_type = default_line_type(self.lang);
        self.block_started_this_line = false;
        self.close_line_is_code = false;
    }

    /// Whether text outside regions is comment in this language.
    fn default_is_comment(&self) -> (r: bool)
        ensures
            r == (self.lang@.default_mode == DefaultMode::Comment),
    {
        match self.lang.default_mode {
            DefaultMode::Comment => true,
            DefaultMode::Code => false,
        }
    }

    /// One step of the classifier.
    fn step(&mut self) -> (o: StepOutcome)
        requires
            old(self).inv(),
            old(self).pos < old(self).content.len(),
        ensures
            step_matches(final(self).st(), o@, step_spec(old(self).content@, old(self).lang@, old(self).st())),
            final(self).step_post(&old(self), o@),
        decreases old(self).content.len(), doc_rank(old(self).lang@), 3nat, 0nat,
    {
        match self.parse {
            ParseState::LineComment => self.step_line_comment(),
            ParseState::BlockComment { depth, region } => {
                let nested = match self.lang.regions[region].kind {
                    RegionKind::Comment { nested, .. } => nested,
                    _ => false,
                };
                proof {
                    assert(self.lang.regions@[region as int]@ == self.lang@.regions[region as int]);
                }
                if nested {
                    self.step_nested_block_comment(depth, region)
                } else {
                    self.step_flat_block_comment(region)
                }
            },
            ParseState::InString { region } => self.step_in_string(region),
            ParseState::InChild { region, child_lang } => self.step_in_child(region, child_lang),
            ParseState::Normal => self.step_normal(),
        }
    }

    /// Inside a line comment.
    fn step_line_comment(&mut self) -> (o: StepOutcome)
        requires
            old(self).inv(),
            old(self).pos < old(self).content.len(),
            old(self).parse == ParseState::LineComment,
        ensures
            step_matches(final(self).st(), o@, step_line_comment_spec(old(self).content@, old(self).st())),
            final(self).step_post(&old(self), o@),
    {
        let bytes = slice_subrange(self.content, self.pos, self.content.len());
        assert(bytes@ =~= self.content@.skip(self.pos as int));
        let found = find_newline(bytes);
        proof {
            lemma_first_of(bytes@, seq![10u8]);
        }
        match found {
            Some(nl) => {
                emit(&mut self.counts, self.line_type, self.parse);
                self.reset_after_newline();
                self.pos = self.pos + nl + 1;
                StepOutcome::Continue
            },
            None => {
                emit(&mut self.counts, self.line_type, self.parse);
                StepOutcome::Return(self.take_result())
            },
        }
    }

    /// Inside a nested block comment.
    fn step_nested_block_comment(&mut self, depth: u8, region: usize) -> (o: StepOutcome)
        requires
            old(self).inv(),
            old(self).pos < old(self).content.len(),
            old(self).parse == (ParseState::BlockComment { depth, region }),
        ensures
            step_matches(final(self).st(), o@, step_nested_block_spec(
                old(self).content@,
                old(self).lang@,
                old(self).st(),
                depth,
                region,
            )),
            final(self).step_post(&old(self), o@),
    {
        let r = &self.lang.regions[region];
        assert(r@ == self.lang@.regions[region as int]);
        let block_close_is_code = match r.kind {
            RegionKind::Comment { close_line_is_code, .. } => close_line_is_code,
            _ => false,
        };
        let bytes = slice_subrange(self.content, self.pos, self.content.len());
        assert(bytes@ =~= self.content@.skip(self.pos as int));
        let open_first = if r.open.len() > 0 {
            r.open[0]
        } else {
            47u8
        };
        let close_first = if r.close.len() > 0 {
            r.close[0]
        } else {
            42u8
        };
        let found = find_nested_block(bytes, open_first, close_first);
        proof {
            lemma_first_of(bytes@, seq![10u8, open_first, close_first]);
        }
        match found {
            Some(i) => {
                if bytes[i] == 10u8 {
                    emit(&mut self.counts, self.line_type, self.parse);
                    self.line_type = LineType::Comment;
                    self.close_line_is_code = block_close_is_code;
                    self.block_started_this_line = false;
                    self.pos = self.pos + i + 1;
                    return StepOutcome::Continue;
                }
                let rest = slice_subrange(self.content, self.pos + i, self.content.len());
                assert(rest@ =~= self.content@.skip(self.pos + i));
                if slice_starts_with(rest, &r.close) {
                    self.parse = if depth > 1 {
                        ParseState::BlockComment { depth: depth - 1, region }
                    } else {
                        ParseState::Normal
                    };
                    self.pos = self.pos + i + r.close.len();
                } else if slice_starts_with(rest, &r.open) {
                    self.parse = ParseState::BlockComment {
                        depth: if depth == 255 {
                            255
                        } else {
                            depth + 1
                        },
                        region,
                    };
                    self.pos = self.pos + i + r.open.len();
                } else {
                    self.pos = self.pos + i + 1;
                }
                StepOutcome::Continue
            },
            None => {
                emit(&mut self.counts, self.line_type, self.parse);
                StepOutcome::Return(self.take_result())
            },
        }
    }

    /// Inside a block comment that does not nest.
    fn step_flat_block_comment(&mut self, region: usize) -> (o: StepOutcome)
        requires
            old(self).inv(),
            old(self).pos < old(self).content.len(),
            old(self).parse matches ParseState::BlockComment { region: rg, .. } && rg == region,
        ensures
            step_matches(final(self).st(), o@, step_flat_block_spec(
                old(self).content@,
                old(self).lang@,
                old(self).st(),
                region,
            )),
            final(self).step_post(&old(self), o@),
    {
        let r = &self.lang.regions[region];
        assert(r@ == self.lang@.regions[region as int]);
        let block_close_is_code = match r.kind {
            RegionKind::Comment { close_line_is_code, .. } => close_line_is_code,
            _ => false,
        };
        let bytes = slice_subrange(self.content, self.pos, self.content.len());
        assert(bytes@ =~= self.content@.skip(self.pos as int));
        let close_first = if r.close.len() > 0 {
            r.close[0]
        } else {
            42u8
        };
        let found = find_newline_or(bytes, close_first);
        proof {
            lemma_first_of(bytes@, seq![10u8, close_first]);
        }
        match found {
            Some(i) => {
                if bytes[i] == 10u8 {
                    emit(&mut self.counts, self.line_type, self.parse);
                    self.line_type = LineType::Comment;
                    self.close_line_is_code = block_close_is_code;
                    self.block_started_this_line = false;
                    self.pos = self.pos + i + 1;
                    return StepOutcome::Continue;
                }
                let rest = slice_subrange(self.content, self.pos + i, self.content.len());
                assert(rest@ =~= self.content@.skip(self.pos + i));
                if slice_starts_with(rest, &r.close) {
                    self.parse = ParseState::Normal;
                    self.pos = self.pos + i + r.close.len();
                } else {
                    // the first byte of the delimiter matched, the rest did not
                    self.pos = self.pos + i + 1;
                }
                StepOutcome::Continue
            },
            None => {
                emit(&mut self.counts, self.line_type, self.parse);
                StepOutcome::Return(self.take_result())
            },
        }
    }

    /// Inside a string literal.
    #[verifier::rlimit(60)]
    fn step_in_string(&mut self, region: usize) -> (o: StepOutcome)
        requires
            old(self).inv(),
            old(self).pos < old(self).content.len(),
            old(self).parse == (ParseState::InString { region }),
        ensures
            step_matches(final(self).st(), o@, step_in_string_spec(
                old(self).content@,
                old(self).lang@,
                old(self).st(),
                region,
            )),
            final(self).step_post(&old(self), o@),
    {
        let r = &self.lang.regions[region];
        assert(r@ == self.lang@.regions[region as int]);
        let escape = match r.kind {
            RegionKind::String { escape } => escape,
            _ => true,
        };
        let bytes = slice_subrange(self.content, self.pos, self.content.len());
        assert(bytes@ =~= self.content@.skip(self.pos as int));
        let close_first = if r.close.len() > 0 {
            r.close[0]
        } else {
            34u8
        };
        let found = if escape {
            proof {
                lemma_first_of(bytes@, seq![10u8, close_first, 92u8]);
            }
            find_string_end(bytes, close_first)
        } else {
            proof {
                lemma_first_of(bytes@, seq![10u8, close_first]);
            }
            find_string_end_no_escape(bytes, close_first)
        };
        let i = match found {
            Some(i) => i,
            None => {
                self.counts.code = self.counts.code + 1;
                return StepOutcome::Return(self.take_result());
            },
        };
        if bytes[i] == 10u8 {
            emit(&mut self.counts, LineType::Code, self.parse);
            self.line_type = LineType::Code;
            self.block_started_this_line = false;
            self.close_line_is_code = false;
            self.pos = self.pos + i + 1;
            return StepOutcome::Continue;
        }
        if bytes[i] == 92u8 {
            if self.pos + i + 1 < self.content.len() && self.content[self.pos + i + 1] == 10u8 {
                emit(&mut self.counts, LineType::Code, self.parse);
                self.line_type = LineType::Code;
                self.block_started_this_line = false;
                self.close_line_is_code = false;
            }
            self.pos = self.pos + i + 2;
            return StepOutcome::Continue;
        }
        let rest = slice_subrange(self.content, self.pos + i, self.content.len());
        assert(rest@ =~= self.content@.skip(self.pos + i));
        if slice_starts_with(rest, &r.close) {
            self.parse = ParseState::Normal;
            self.pos = self.pos + i + r.close.len();
        } else {
            self.pos = self.pos + i + 1;
        }
        StepOutcome::Continue
    }

    /// Inside a child region: collect its text until the closing delimiter.
    #[verifier::rlimit(60)]
    fn step_in_child(&mut self, region: usize, child_lang: Option<usize>) -> (o: StepOutcome)
        requires
            old(self).inv(),
            old(self).pos < old(self).content.len(),
            old(self).parse == (ParseState::InChild { region, child_lang }),
        ensures
            step_matches(final(self).st(), o@, step_in_child_spec(
                old(self).content@,
                old(self).lang@,
                old(self).st(),
                region,
                child_lang,
            )),
            final(self).step_post(&old(self), o@),
        decreases old(self).content.len(), doc_rank(old(self).lang@), 2nat, 0nat,
    {
        let r = &self.lang.regions[region];
        assert(r@ == self.lang@.regions[region as int]);
        let bytes = slice_subrange(self.content, self.pos, self.content.len());
        assert(bytes@ =~= self.content@.skip(self.pos as int));
        let close_first = if r.close.len() > 0 {
            r.close[0]
        } else {
            60u8
        };
        let found = find_newline_or(bytes, close_first);
        proof {
            lemma_first_of(bytes@, seq![10u8, close_first]);
        }
        match found {
            Some(i) => {
                if bytes[i] == 10u8 {
                    let line = slice_subrange(bytes, 0, i + 1);
                    assert(line@ =~= bytes@.take(i + 1));
                    super::helpers::append_bytes(&mut self.child_buf, line);
                    self.pos = self.pos + i + 1;
                    return StepOutcome::Continue;
                }
                let rest = slice_subrange(self.content, self.pos + i, self.content.len());
                assert(rest@ =~= self.content@.skip(self.pos + i));
                if slice_starts_with(rest, &r.close) {
                    let chunk = slice_subrange(bytes, 0, i);
                    assert(chunk@ =~= bytes@.take(i as int));
                    push_child_before_close(&mut self.child_buf, chunk);
                    flush_child(&mut self.counts, &mut self.children, child_lang, self.child_buf.as_slice());
                    self.child_buf.clear();
                    self.parse = ParseState::Normal;
                    self.line_type = self.child_delimiter_line_type;
                    self.block_started_this_line = false;
                    self.close_line_is_code = false;
                    self.pos = self.pos + i + r.close.len();
                    assert(self.child_buf@ =~= Seq::<u8>::empty());
                } else {
                    let line = slice_subrange(bytes, 0, i + 1);
                    assert(line@ =~= bytes@.take(i + 1));
                    super::helpers::append_bytes(&mut self.child_buf, line);
                    self.pos = self.pos + i + 1;
                }
                StepOutcome::Continue
            },
            None => {
                super::helpers::append_bytes(&mut self.child_buf, bytes);
                StepOutcome::Break
            },
        }
    }

    /// Outside any region.
    #[verifier::rlimit(60)]
    fn step_normal(&mut self) -> (o: StepOutcome)
        requires
            old(self).inv(),
            old(self).pos < old(self).content.len(),
            old(self).parse == ParseState::Normal,
        ensures
            step_matches(final(self).st(), o@, step_normal_spec(
                old(self).content@,
                old(self).lang@,
                old(self).st(),
            )),
            final(self).step_post(&old(self), o@),
    {
        let bytes = slice_subrange(self.content, self.pos, self.content.len());
        assert(bytes@ =~= self.content@.skip(self.pos as int));
        let dc = self.default_is_comment();
        let found = find_interesting(bytes, self.lang.interest_bytes.as_slice());
        proof {
            lemma_first_of(bytes@, self.lang@.interest_bytes);
        }
        let i = match found {
            Some(i) => i,
            None => {
                self.line_type = classify_prefix(
                    bytes,
                    self.line_type,
                    self.block_started_this_line,
                    self.close_line_is_code,
                    dc,
                );
                if bytes.len() > 0 {
                    emit(&mut self.counts, self.line_type, self.parse);
                }
                return StepOutcome::Return(self.take_result());
            },
        };
        if i > 0 {
            let prefix = slice_subrange(bytes, 0, i);
            assert(prefix@ =~= bytes@.take(i as int));
            self.line_type = classify_prefix(
                prefix,
                self.line_type,
                self.block_started_this_line,
                self.close_line_is_code,
                dc,
            );
        }
        self.pos = self.pos + i;
        if bytes[i] == 10u8 {
            emit(&mut self.counts, self.line_type, self.parse);
            self.reset_after_newline();
            self.pos = self.pos + 1;
            return StepOutcome::Continue;
        }
        self.step_normal_token()
    }

    /// At a token outside any region.
    fn step_normal_token(&mut self) -> (o: StepOutcome)
        requires
            old(self).base_inv(),
            old(self).pos < old(self).content.len(),
            old(self).parse == ParseState::Normal,
            old(self).potential() <= old(self).initial@ + 3 * old(self).pos,
        ensures
            step_matches(final(self).st(), o@, step_token_spec(
                old(self).content@,
                old(self).lang@,
                old(self).st(),
            )),
            o is Continue,
            final(self).content == old(self).content,
            final(self).lang == old(self).lang,
            final(self).initial == old(self).initial,
            final(self).inv(),
            final(self).pos > old(self).pos,
    {
        let rest = slice_subrange(self.content, self.pos, self.content.len());
        assert(rest@ =~= self.content@.skip(self.pos as int));
        let (token, advance) = match_token(rest, self.lang);
        match token {
            TokenMatch::LineComment => {
                if self.line_type == LineType::Blank {
                    self.line_type = LineType::Comment;
                }
                self.parse = ParseState::LineComment;
            },
            TokenMatch::BlockComment { region } => {
                let block_close_is_code = match self.lang.regions[region].kind {
                    RegionKind::Comment { close_line_is_code, .. } => close_line_is_code,
                    _ => false,
                };
                assert(self.lang.regions@[region as int]@ == self.lang@.regions[region as int]);
                if self.line_type == LineType::Blank {
                    self.line_type = LineType::Comment;
                }
                self.block_started_this_line = true;
                self.close_line_is_code = block_close_is_code;
                self.parse = ParseState::BlockComment { depth: 1, region };
            },
            TokenMatch::StringLiteral { region } => {
                self.line_type = LineType::Code;
                self.parse = ParseState::InString { region };
                self.close_line_is_code = false;
            },
            TokenMatch::Child { region } => {
                let (default_lang, detect) = match self.lang.regions[region].kind {
                    RegionKind::Child { default_lang, detect } => (default_lang, detect),
                    _ => (None, Detection::Fixed),
                };
                assert(self.lang.regions@[region as int]@ == self.lang@.regions[region as int]);
                self.open_child_region(region, default_lang, detect, advance);
                return StepOutcome::Continue;
            },
            TokenMatch::Other => {
                let b = self.content[self.pos];
                if self.line_type == LineType::Blank && !(b == 32u8 || b == 9u8 || b == 13u8) {
                    self.line_type = if self.default_is_comment() {
                        LineType::Comment
                    } else {
                        LineType::Code
                    };
                }
            },
        }
        self.pos = self.pos + advance;
        StepOutcome::Continue
    }

    /// Open the child region `region`, whose delimiter spans `open_len` bytes here.
    fn open_child_region(
        &mut self,
        region: usize,
        default_lang: Option<&'static str>,
        detect: Detection,
        open_len: usize,
    )
        requires
            old(self).base_inv(),
            old(self).pos + open_len <= old(self).content.len(),
            open_len >= 1,
            region < old(self).lang@.regions.len(),
            old(self).lang@.regions[region as int].kind is Child,
            child_info(old(self).lang@.regions[region as int]) == (default_lang, detect),
            old(self).potential() <= old(self).initial@ + 3 * old(self).pos,
            !(old(self).parse is InChild),
        ensures
            final(self).st() == open_child_spec(
                old(self).content@,
                old(self).lang@,
                old(self).st(),
                region,
                open_len as int,
            ),
            final(self).content == old(self).content,
            final(self).lang == old(self).lang,
            final(self).initial == old(self).initial,
            final(self).inv(),
            final(self).pos > old(self).pos,
    {
        let after_open = slice_subrange(self.content, self.pos + open_len, self.content.len());
        assert(after_open@ =~= self.content@.skip(self.pos + open_len));
        let opened = detect_child_open(self.content, self.pos, open_len, default_lang, detect);
        let detected_child = opened.detected_child;
        let mut consume_after_open = opened.consume_after_open;
        let delim_line_type = opened.delim_line_type;
        self.line_type = delim_line_type;
        self.child_delimiter_line_type = delim_line_type;
        self.child_buf.clear();
        let is_fence = match detect {
            Detection::Fence => true,
            _ => false,
        };
        let is_tag = match detect {
            Detection::Tag => true,
            _ => false,
        };
        if is_fence && consume_after_open > 0 && after_open[consume_after_open - 1] == 10u8 {
            emit(&mut self.counts, self.line_type, ParseState::Normal);
            self.line_type = default_line_type(self.lang);
        }
        if is_tag && consume_after_open < after_open.len() && after_open[consume_after_open]
            == 10u8 {
            emit(&mut self.counts, self.line_type, ParseState::Normal);
            self.line_type = default_line_type(self.lang);
            consume_after_open = consume_after_open + 1;
        }
        self.parse = ParseState::InChild { region, child_lang: detected_child };
        self.pos = self.pos + open_len + consume_after_open;
        self.block_started_this_line = false;
        self.close_line_is_code = false;
        assert(self.child_buf@ =~= Seq::<u8>::empty());
    }

    /// The result at the end of the input.
    fn finish_after_loop(&mut self) -> (r: FileResult)
        requires
            old(self).inv_end(),
        ensures
            r@ == finish_spec(old(self).content@, old(self).lang@, old(self).st()),
            grand_total(r@) <= old(self).initial@ + 3 * old(self).content.len() + 1,
            children_in_range(r@.children),
        decreases old(self).content.len(), doc_rank(old(self).lang@), 3nat, 0nat,
    {
        if let ParseState::InChild { child_lang, .. } = self.parse {
            flush_child(&mut self.counts, &mut self.children, child_lang, self.child_buf.as_slice());
        }
        let ends_with_newline = self.content.len() > 0 && self.content[self.content.len() - 1]
            == 10u8;
        if self.line_type != LineType::Blank && !ends_with_newline {
            emit(&mut self.counts, self.line_type, self.parse);
        }
        self.take_result()
    }
}

/// Whether `s` begins with `p`.
pub fn slice_starts_with(s: &[u8], p: &Vec<u8>) -> (r: bool)
    ensures
        r == starts_with(s@, p@),
{
    if p.len() > s.len() {
        return false;
    }
    let mut k: usize = 0;
    while k < p.len() && p[k] == s[k]
        invariant
            k <= p.len() <= s.len(),
            forall|m: int| 0 <= m < k ==> p@[m] == s@[m],
        decreases p.len() - k,
    {
        k += 1;
    }
    if k == p.len() {
        assert(s@.take(p.len() as int) =~= p@);
        true
    } else {
        assert(s@.take(p.len() as int)[k as int] == s@[k as int]);
        false
    }
}

} // verus!
