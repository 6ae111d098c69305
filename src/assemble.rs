//! The two-pass assembler: tokenize, take out label definitions, then
//! encode each remaining line by the pattern its token shapes match.
use vstd::prelude::*;
use crate::bitpush::{lemma_two_to_adds, two_to};
use crate::construct::{
    construct_instruction, construct_spec, encode_prefix, fits, lemma_encode_split, lemma_encode_word, models, run_piece,
};
use crate::cpu::class_of;
use crate::table::{leading_class, leading_class_from};
use crate::template::run_total;
use crate::error::{AssemblyError, AssemblyErrorVariant, ErrorKind, ErrorModel};
use crate::labels::{label_lookup, LabelTable};
use crate::lexer::{lines_model, tokenize, tokenize_spec};
use crate::pattern::PatternModel;
use crate::table::{
    get_patterns, lemma_match_from, lemma_table_patterns_wf, match_from, pattern_index, pattern_wf,
    patterns_model, table_spec,
};
use crate::token::{shape_of, AmbiguousToken, Token, TokenModel, TokenVariant};

verus! {

/// Whether a line defines a label: its first token is a label.
pub open spec fn is_label_line(l: Seq<TokenModel>) -> bool {
    l.len() > 0 && l[0].value is Label
}

/// The lines that are no label definitions, and the labels defined, each
/// standing for the number of such lines before it.
pub open spec fn extract_labels_spec(lines: Seq<Seq<TokenModel>>) -> (Seq<Seq<TokenModel>>, Seq<(Seq<char>, usize)>)
    decreases lines.len(),
{
    if lines.len() == 0 {
        (Seq::empty(), Seq::empty())
    } else {
        let (body, labels) = extract_labels_spec(lines.drop_last());
        let l = lines.last();
        if is_label_line(l) {
            (body, labels.push((l[0].value->Label_0, body.len() as usize)))
        } else {
            (body.push(l), labels)
        }
    }
}

/// How many lines are no label definitions.
pub open spec fn count_non_label_lines(lines: Seq<Seq<TokenModel>>) -> nat
    decreases lines.len(),
{
    if lines.len() == 0 {
        0
    } else {
        count_non_label_lines(lines.drop_last()) + if is_label_line(lines.last()) {
            0nat
        } else {
            1nat
        }
    }
}

/// The shapes of a line's tokens.
pub open spec fn shapes(l: Seq<TokenModel>) -> Seq<AmbiguousToken> {
    l.map_values(|t: TokenModel| shape_of(t.value))
}

/// The source line of a line of tokens.
pub open spec fn line_of(l: Seq<TokenModel>) -> nat {
    if l.len() > 0 {
        l[0].line
    } else {
        0
    }
}

/// Encoding the lines `body` in order with the patterns `ps`; the first
/// line that fails gives the error.
pub open spec fn encode_lines(
    ps: Seq<PatternModel>,
    body: Seq<Seq<TokenModel>>,
    labels: Seq<(Seq<char>, usize)>,
) -> Result<Seq<u32>, ErrorModel>
    decreases body.len(),
{
    if body.len() == 0 {
        Ok(Seq::empty())
    } else {
        match encode_lines(ps, body.drop_last(), labels) {
            Err(e) => Err(e),
            Ok(ws) => {
                let l = body.last();
                match match_from(ps, shapes(l), 0) {
                    None => Err(ErrorModel { line: line_of(l), column: None, kind: ErrorKind::UnknownTokenPattern }),
                    Some(k) => match construct_spec(l, ps[k].runs, ps[k].fields, labels, body.len() - 1) {
                        Ok(w) => Ok(ws.push(w)),
                        Err(e) => Err(e),
                    },
                }
            },
        }
    }
}

/// What assembling the source `s` gives.
pub open spec fn assemble_spec(s: Seq<char>) -> Result<Seq<u32>, ErrorModel> {
    match table_spec() {
        Err(e) => Err(ErrorModel { line: 0, column: None, kind: ErrorKind::TableBuildError(e) }),
        Ok(ps) => match tokenize_spec(s) {
            Err(e) => Err(e),
            Ok(lines) => encode_lines(ps, extract_labels_spec(lines).0, extract_labels_spec(lines).1),
        },
    }
}

/// Tokens grouped into lines: consecutive tokens on the same source line
/// form one group.
pub open spec fn group_by_line(ts: Seq<TokenModel>) -> Seq<Seq<TokenModel>>
    decreases ts.len(),
{
    if ts.len() == 0 {
        Seq::empty()
    } else {
        let g = group_by_line(ts.drop_last());
        if g.len() > 0 && g.last().len() > 0 && g.last().last().line == ts.last().line {
            g.update(g.len() - 1, g.last().push(ts.last()))
        } else {
            g.push(seq![ts.last()])
        }
    }
}

/// Groups a token stream into lines: a token whose line differs from the
/// previous token's starts a new line.
pub fn collect_into_lines(tokens: Vec<Token>) -> (r: Vec<Vec<Token>>)
    ensures
        lines_model(r@) == group_by_line(models(tokens@)),
{
    let ghost all = models(tokens@);
    let n = tokens.len();
    let mut rest = tokens;
    let mut lines: Vec<Vec<Token>> = Vec::new();
    let mut current: Vec<Token> = Vec::new();
    let mut i: usize = 0;
    proof {
        assert(all.subrange(0, 0) =~= Seq::<TokenModel>::empty());
        assert(models(rest@) =~= all.subrange(0, n as int));
    }
    while i < n
        invariant
            n == all.len(),
            i <= n,
            models(rest@) == all.subrange(i as int, n as int),
            i == 0 ==> lines@.len() == 0 && current@.len() == 0,
            i > 0 ==> current@.len() > 0 && group_by_line(all.subrange(0, i as int)) == lines_model(lines@).push(models(current@)),
        decreases n - i,
    {
        proof {
            assert(models(rest@).len() == rest@.len());
            assert(models(rest@)[0] == rest@[0]@);
        }
        let ghost old_rest = rest@;
        let token = rest.remove(0);
        let ghost pre = all.subrange(0, i as int);
        let ghost g = group_by_line(pre);
        proof {
            assert forall|k: int| 0 <= k < rest@.len() implies #[trigger] models(rest@)[k] == all.subrange(i + 1, n as int)[k] by {
                assert(rest@[k] == old_rest[k + 1]);
                assert(models(old_rest)[k + 1] == old_rest[k + 1]@);
            }
            assert(models(rest@) =~= all.subrange(i + 1, n as int));
            assert(all.subrange(0, i + 1).drop_last() =~= pre);
            assert(all.subrange(0, i + 1).last() == token@);
        }
        let same = current.len() > 0 && current[current.len() - 1].line == token.line;
        if same {
            let ghost before = current@;
            proof {
                assert(models(before).last() == before.last()@);
                assert(g.last() == models(before));
            }
            current.push(token);
            proof {
                assert(models(current@) =~= models(before).push(token@));
                assert(lines_model(lines@).push(models(before)).update(g.len() - 1, models(before).push(token@))
                    =~= lines_model(lines@).push(models(current@)));
            }
        } else {
            if current.len() > 0 {
                let done = current;
                proof {
                    assert(models(done@).last() == done@.last()@);
                    assert(lines_model(lines@.push(done)) =~= lines_model(lines@).push(models(done@)));
                }
                lines.push(done);
            } else {
                proof {
                    assert(g =~= Seq::<Seq<TokenModel>>::empty());
                    assert(lines_model(lines@) =~= Seq::<Seq<TokenModel>>::empty());
                }
            }
            current = Vec::new();
            current.push(token);
            proof {
                assert(models(current@) =~= seq![token@]);
            }
        }
        i = i + 1;
    }
    proof {
        assert(all.subrange(0, n as int) =~= all);
    }
    if current.len() > 0 {
        lines.push(current);
        proof {
            assert(lines_model(lines@) =~= lines_model(lines@.drop_last()).push(models(lines@.last()@)));
        }
    } else {
        proof {
            assert(lines_model(lines@) =~= Seq::<Seq<TokenModel>>::empty());
        }
    }
    lines
}

/// Takes out the lines that define labels. Each label stands for the index
/// of the next line that is no label definition; tokens after a label on
/// its line are ignored.
pub fn extract_labels(token_lines: Vec<Vec<Token>>) -> (r: (Vec<Vec<Token>>, LabelTable))
    ensures
        lines_model(r.0@) == extract_labels_spec(lines_model(token_lines@)).0,
        r.1@ == extract_labels_spec(lines_model(token_lines@)).1,
{
    let ghost all = lines_model(token_lines@);
    let mut rest = token_lines;
    let mut line_tokens: Vec<Vec<Token>> = Vec::new();
    let mut labels = LabelTable::new();
    let mut instruction: usize = 0;
    let n = rest.len();
    let mut i: usize = 0;
    proof {
        assert(all.subrange(0, 0) =~= Seq::<Seq<TokenModel>>::empty());
        assert(lines_model(line_tokens@) =~= Seq::<Seq<TokenModel>>::empty());
        assert(lines_model(rest@) =~= all.subrange(0, n as int));
    }
    while i < n
        invariant
            n == all.len(),
            i <= n,
            lines_model(rest@) == all.subrange(i as int, n as int),
            lines_model(line_tokens@) == extract_labels_spec(all.subrange(0, i as int)).0,
            labels@ == extract_labels_spec(all.subrange(0, i as int)).1,
            instruction == line_tokens@.len(),
            instruction <= i,
        decreases n - i,
    {
        proof {
            assert(lines_model(rest@).len() == rest@.len());
            assert(lines_model(rest@)[0] == models(rest@[0]@));
        }
        let ghost old_rest = rest@;
        let tokens = rest.remove(0);
        let ghost pre = all.subrange(0, i as int);
        proof {
            assert forall|k: int| 0 <= k < rest@.len() implies #[trigger] lines_model(rest@)[k] == all.subrange(i + 1, n as int)[k] by {
                assert(rest@[k] == old_rest[k + 1]);
                assert(lines_model(old_rest)[k + 1] == models(old_rest[k + 1]@));
            }
            assert(lines_model(rest@) =~= all.subrange(i + 1, n as int));
            assert(all.subrange(0, i + 1).drop_last() =~= pre);
            assert(all.subrange(0, i + 1).last() == models(tokens@));
        }
        let mut is_label = false;
        if tokens.len() > 0 {
            if let TokenVariant::Label(name) = &tokens[0].variant {
                proof {
                    assert(models(tokens@)[0] == tokens@[0]@);
                }
                labels.insert(name.clone(), instruction);
                is_label = true;
            }
        }
        if !is_label {
            proof {
                if tokens@.len() > 0 {
                    assert(models(tokens@)[0] == tokens@[0]@);
                }
                assert(lines_model(line_tokens@.push(tokens)) =~= lines_model(line_tokens@).push(models(tokens@)));
            }
            line_tokens.push(tokens);
            instruction = instruction + 1;
        }
        i = i + 1;
    }
    proof {
        assert(all.subrange(0, n as int) =~= all);
    }
    (line_tokens, labels)
}

/// The shapes of a line's tokens.
pub fn make_tokens_ambiguous(tokens: &[Token]) -> (r: Vec<AmbiguousToken>)
    ensures
        r@ == shapes(models(tokens@)),
{
    let mut out: Vec<AmbiguousToken> = Vec::new();
    let mut i: usize = 0;
    while i < tokens.len()
        invariant
            i <= tokens@.len(),
            out@ == shapes(models(tokens@)).subrange(0, i as int),
        decreases tokens@.len() - i,
    {
        out.push(AmbiguousToken::of(&tokens[i].variant));
        proof {
            assert(out@ =~= shapes(models(tokens@)).subrange(0, i + 1));
        }
        i = i + 1;
    }
    proof {
        assert(out@ =~= shapes(models(tokens@)));
    }
    out
}

/// A usable pattern whose shapes a line has fits that line.
pub proof fn lemma_pattern_fits(l: Seq<TokenModel>, p: PatternModel)
    requires
        pattern_wf(p),
        shapes(l) == p.expected,
    ensures
        fits(l, p.runs, p.fields),
{
    assert(l.len() == shapes(l).len());
    assert forall|i: int| 0 <= i < p.runs.len() && crate::template::is_field_letter(#[trigger] p.runs[i].0) implies {
        &&& crate::encoding::field_lookup(p.fields, p.runs[i].0) matches Some(k)
        &&& k < l.len()
        &&& !(l[k as int].value is Opcode)
    } by {
        let k = crate::encoding::field_lookup(p.fields, p.runs[i].0)->Some_0;
        assert(shapes(l)[k as int] == shape_of(l[k as int].value));
    }
}

proof fn lemma_encode_error_stays(
    ps: Seq<PatternModel>,
    body: Seq<Seq<TokenModel>>,
    labels: Seq<(Seq<char>, usize)>,
    k: int,
    j: int,
)
    requires
        0 <= k <= j <= body.len(),
        encode_lines(ps, body.subrange(0, k), labels) is Err,
    ensures
        encode_lines(ps, body.subrange(0, j), labels) == encode_lines(ps, body.subrange(0, k), labels),
    decreases j - k,
{
    if k < j {
        lemma_encode_error_stays(ps, body, labels, k, j - 1);
        assert(body.subrange(0, j).drop_last() =~= body.subrange(0, j - 1));
    }
}

/// Assembles source text into instruction words, one per line that is no
/// label definition. Fails with the first error: a table that cannot be
/// built, a word that is no token, a line whose shapes no pattern expects,
/// or an operand its field cannot hold.
pub fn assemble(src: String) -> (r: Result<Vec<u32>, AssemblyError>)
    ensures
        assemble_spec(src@) matches Ok(ws) ==> (r matches Ok(v) && v@ == ws),
        assemble_spec(src@) matches Err(e) ==> (r matches Err(x) && x@ == e),
{
    let patterns = match get_patterns() {
        Ok(p) => p,
        Err(e) => {
            return Err(AssemblyError { line: 0, column: None, variant: AssemblyErrorVariant::TableBuildError(e) });
        },
    };
    let ghost ps = patterns_model(patterns@);
    proof {
        lemma_table_patterns_wf();
    }
    let token_lines = match tokenize(src.as_str()) {
        Ok(lines) => lines,
        Err(e) => {
            return Err(e);
        },
    };
    let (body, labels) = extract_labels(token_lines);
    let ghost bm = lines_model(body@);
    let mut instructions: Vec<u32> = Vec::new();
    let mut i: usize = 0;
    proof {
        assert(bm.subrange(0, 0) =~= Seq::<Seq<TokenModel>>::empty());
    }
    while i < body.len()
        invariant
            ps == patterns_model(patterns@),
            table_spec() == Ok::<Seq<PatternModel>, crate::error::TableBuildError>(ps),
            forall|k: int| 0 <= k < ps.len() ==> pattern_wf(#[trigger] ps[k]),
            bm == lines_model(body@),
            i <= bm.len(),
            encode_lines(ps, bm.subrange(0, i as int), labels@) == Ok::<Seq<u32>, ErrorModel>(instructions@),
            assemble_spec(src@) == encode_lines(ps, bm, labels@),
        decreases bm.len() - i,
    {
        let tokens = &body[i];
        let ghost l = models(tokens@);
        proof {
            assert(bm[i as int] == l);
            assert(bm.subrange(0, i + 1).drop_last() =~= bm.subrange(0, i as int));
            assert(bm.subrange(0, i + 1).last() == l);
            lemma_match_from(ps, shapes(l), 0);
        }
        let shape = make_tokens_ambiguous(tokens.as_slice());
        let k = match pattern_index(&patterns, shape.as_slice()) {
            Some(k) => k,
            None => {
                let line = if tokens.len() > 0 {
                    tokens[0].line
                } else {
                    0
                };
                proof {
                    if tokens@.len() > 0 {
                        assert(l[0] == tokens@[0]@);
                    }
                    lemma_encode_error_stays(ps, bm, labels@, i + 1, bm.len() as int);
                    assert(bm.subrange(0, bm.len() as int) =~= bm);
                }
                return Err(AssemblyError { line, column: None, variant: AssemblyErrorVariant::UnknownTokenPattern });
            },
        };
        let pattern = &patterns[k];
        proof {
            assert(ps[k as int] == pattern@);
            lemma_pattern_fits(l, pattern@);
        }
        match construct_instruction(tokens.as_slice(), &pattern.bit_pattern, &pattern.encoding, &labels, i) {
            Ok(w) => {
                instructions.push(w);
            },
            Err(e) => {
                proof {
                    lemma_encode_error_stays(ps, bm, labels@, i + 1, bm.len() as int);
                    assert(bm.subrange(0, bm.len() as int) =~= bm);
                }
                return Err(e);
            },
        }
        i = i + 1;
    }
    proof {
        assert(bm.subrange(0, bm.len() as int) =~= bm);
    }
    Ok(instructions)
}

proof fn lemma_extract_count(lines: Seq<Seq<TokenModel>>)
    ensures
        extract_labels_spec(lines).0.len() == count_non_label_lines(lines),
    decreases lines.len(),
{
    if lines.len() > 0 {
        lemma_extract_count(lines.drop_last());
    }
}

proof fn lemma_encode_count(ps: Seq<PatternModel>, body: Seq<Seq<TokenModel>>, labels: Seq<(Seq<char>, usize)>)
    requires
        encode_lines(ps, body, labels) is Ok,
    ensures
        encode_lines(ps, body, labels)->Ok_0.len() == body.len(),
    decreases body.len(),
{
    if body.len() > 0 {
        lemma_encode_count(ps, body.drop_last(), labels);
    }
}

/// A source that assembles gives exactly one word per line that is no label
/// definition.
pub proof fn lemma_one_word_per_line(s: Seq<char>)
    requires
        assemble_spec(s) is Ok,
    ensures
        tokenize_spec(s) is Ok,
        assemble_spec(s)->Ok_0.len() == count_non_label_lines(tokenize_spec(s)->Ok_0),
{
    let lines = tokenize_spec(s)->Ok_0;
    lemma_extract_count(lines);
    let (body, labels) = extract_labels_spec(lines);
    lemma_encode_count(table_spec()->Ok_0, body, labels);
}

proof fn lemma_run_total_le(r: Seq<(char, usize)>, k: int)
    requires
        0 <= k <= r.len(),
    ensures
        run_total(r.subrange(0, k)) <= run_total(r),
    decreases r.len() - k,
{
    if k < r.len() {
        lemma_run_total_le(r, k + 1);
        assert(r.subrange(0, k + 1).drop_last() =~= r.subrange(0, k));
    } else {
        assert(r.subrange(0, k) =~= r);
    }
}

proof fn lemma_leading(
    template: Seq<(char, usize)>,
    fields: Seq<(char, usize)>,
    tokens: Seq<TokenModel>,
    labels: Seq<(Seq<char>, usize)>,
    index: int,
    k: nat,
    acc: nat,
    total: nat,
    c: nat,
)
    requires
        k <= template.len(),
        run_total(template) == 32,
        encode_prefix(template, template, fields, tokens, labels, index) is Ok,
        encode_prefix(template.subrange(0, k as int), template, fields, tokens, labels, index) == Ok::<nat, ErrorKind>(acc),
        total == run_total(template.subrange(0, k as int)),
        leading_class_from(template, k, acc, total) == Some(c),
    ensures
        encode_prefix(template, template, fields, tokens, labels, index)->Ok_0 / 0x1000_0000 == c,
    decreases template.len() - k,
{
    let n = template.len() as int;
    assert(template.subrange(0, n) =~= template);
    lemma_encode_split(template, fields, tokens, labels, index, k as int, n);
    lemma_run_total_le(template, k as int);
    let v = encode_prefix(template, template, fields, tokens, labels, index)->Ok_0;
    if total >= 4 {
        let d1 = two_to((32 - total) as nat);
        let d2 = two_to((total - 4) as nat);
        lemma_two_to_adds((32 - total) as nat, (total - 4) as nat);
        lemma_two_to_adds((32 - total) as nat, 0);
        lemma_two_to_adds((total - 4) as nat, 0);
        crate::bitpush::lemma_two_to_32();
        reveal_with_fuel(two_to, 29);
        assert(two_to(28) == 0x1000_0000);
        assert(v / d1 == acc);
        vstd::arithmetic::div_mod::lemma_div_denominator(v as int, d1 as int, d2 as int);
    } else {
        let sk1 = template.subrange(0, k as int + 1);
        assert(sk1.drop_last() =~= template.subrange(0, k as int));
        assert(sk1.last() == template[k as int]);
        lemma_encode_split(template, fields, tokens, labels, index, k as int + 1, n);
        let run = template[k as int];
        let a1 = encode_prefix(sk1, template, fields, tokens, labels, index)->Ok_0;
        assert(run_total(sk1) == total + run.1);
        if run.0 == '0' {
            assert(a1 == acc * two_to(run.1 as nat) + 0);
            assert(leading_class_from(template, k, acc, total) == leading_class_from(
                template,
                k + 1,
                acc * two_to(run.1 as nat),
                total + run.1 as nat,
            ));
            lemma_leading(template, fields, tokens, labels, index, k + 1, a1, total + run.1 as nat, c);
        } else {
            assert(run.0 == '1');
            let q = two_to(run.1 as nat);
            lemma_two_to_adds(run.1 as nat, 0);
            assert(run_piece(run, template, fields, tokens, labels, index) == Ok::<nat, ErrorKind>((q - 1) as nat));
            assert(a1 == acc * q + (q - 1) as nat);
            assert(leading_class_from(template, k, acc, total) == leading_class_from(
                template,
                k + 1,
                (acc * q + (q - 1)) as nat,
                total + run.1 as nat,
            ));
            lemma_leading(template, fields, tokens, labels, index, k + 1, a1, total + run.1 as nat, c);
        }
    }
}

/// A word built by a template whose leading literal bits write class tag
/// `c` has `c` as its class tag.
pub proof fn lemma_word_class(
    tokens: Seq<TokenModel>,
    template: Seq<(char, usize)>,
    fields: Seq<(char, usize)>,
    labels: Seq<(Seq<char>, usize)>,
    index: int,
    c: nat,
)
    requires
        fits(tokens, template, fields),
        construct_spec(tokens, template, fields, labels, index) is Ok,
        leading_class(template) == Some(c),
    ensures
        class_of(construct_spec(tokens, template, fields, labels, index)->Ok_0) == c,
{
    lemma_encode_word(tokens, template, fields, labels, index);
    assert(template.subrange(0, 0) =~= Seq::<(char, usize)>::empty());
    lemma_leading(template, fields, tokens, labels, index, 0, 0, 0, c);
}

/// Every word the assembler produces has a class tag from 0 to 9, so the
/// interpreter's decoder knows its class.
pub proof fn lemma_assembled_words_have_known_class(s: Seq<char>)
    requires
        assemble_spec(s) is Ok,
    ensures
        forall|i: int| 0 <= i < assemble_spec(s)->Ok_0.len() ==> class_of(#[trigger] assemble_spec(s)->Ok_0[i]) <= 9,
{
    lemma_table_patterns_wf();
    let ps = table_spec()->Ok_0;
    let lines = tokenize_spec(s)->Ok_0;
    let (body, labels) = extract_labels_spec(lines);
    lemma_encode_lines_class(ps, body, labels);
}

proof fn lemma_encode_lines_class(ps: Seq<PatternModel>, body: Seq<Seq<TokenModel>>, labels: Seq<(Seq<char>, usize)>)
    requires
        forall|k: int| 0 <= k < ps.len() ==> pattern_wf(#[trigger] ps[k]),
        encode_lines(ps, body, labels) is Ok,
    ensures
        forall|i: int| 0 <= i < encode_lines(ps, body, labels)->Ok_0.len() ==> class_of(
            #[trigger] encode_lines(ps, body, labels)->Ok_0[i],
        ) <= 9,
    decreases body.len(),
{
    if body.len() > 0 {
        lemma_encode_lines_class(ps, body.drop_last(), labels);
        let l = body.last();
        lemma_match_from(ps, shapes(l), 0);
        let k = match_from(ps, shapes(l), 0)->Some_0;
        let p = ps[k];
        lemma_pattern_fits(l, p);
        let c = leading_class(p.runs)->Some_0;
        lemma_word_class(l, p.runs, p.fields, labels, body.len() - 1, c);
        let ws = encode_lines(ps, body.drop_last(), labels)->Ok_0;
        let all = encode_lines(ps, body, labels)->Ok_0;
        assert forall|i: int| 0 <= i < all.len() implies class_of(#[trigger] all[i]) <= 9 by {
            if i < ws.len() {
                assert(all[i] == ws[i]);
            }
        }
    }
}

/// A label defined on the last line stands for the number of lines that
/// are no label definitions, one past the last instruction; as the latest
/// definition of its name, it is what looking the name up finds.
pub proof fn lemma_label_at_last_line(lines: Seq<Seq<TokenModel>>)
    requires
        lines.len() > 0,
        is_label_line(lines.last()),
    ensures
        ({
            let name = lines.last()[0].value->Label_0;
            label_lookup(extract_labels_spec(lines).1, name) == Some(count_non_label_lines(lines) as usize)
        }),
{
    lemma_extract_count(lines.drop_last());
}

} // verus!
