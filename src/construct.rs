//! Encoding one line of tokens into an instruction word by a template and a
//! field map.
use vstd::prelude::*;
use crate::bitpush::{lemma_two_to_32, lemma_two_to_adds, lemma_two_to_mono, two_to, two_to_exec, BitPush};
use crate::encoding::{field_lookup, Encoding};
use crate::error::{AssemblyError, AssemblyErrorVariant, ErrorKind, ErrorModel};
use crate::labels::{label_lookup, LabelTable};
use crate::register::reg_num;
use crate::template::{is_field_letter, is_template_char, run_total, BitRunLengthCoding};
use crate::token::{Token, TokenModel, TokenValue, TokenVariant};

verus! {

/// The models of a sequence of tokens.
pub open spec fn models(ts: Seq<Token>) -> Seq<TokenModel> {
    ts.map_values(|t: Token| t@)
}

/// How many template bits letter `c` has, over all its runs.
pub open spec fn letter_width(runs: Seq<(char, usize)>, c: char) -> nat
    decreases runs.len(),
{
    if runs.len() == 0 {
        0
    } else {
        letter_width(runs.drop_last(), c) + if runs.last().0 == c {
            runs.last().1 as nat
        } else {
            0
        }
    }
}

/// The number an operand supplies to a field `width` bits wide, before it
/// is cut to a run's length; or why it cannot.
///
/// A label gives the offset from instruction `index` to the label, as a
/// 16-bit two's-complement number; a signed immediate its two's complement
/// in 32 bits; a register its number; a boolean 0 or 1. Immediates must fit
/// a field narrower than 16 bits.
pub open spec fn operand_bits(
    v: TokenValue,
    width: nat,
    labels: Seq<(Seq<char>, usize)>,
    index: int,
) -> Result<nat, ErrorKind> {
    match v {
        TokenValue::Label(name) => match label_lookup(labels, name) {
            None => Err(ErrorKind::NoLabelFound { name }),
            Some(li) => {
                let off = li - index;
                if off < -0x8000 {
                    Err(ErrorKind::OffsetTooLarge { limit: -0x8000, required: off })
                } else if off > 0x7FFF {
                    Err(ErrorKind::OffsetTooLarge { limit: 0x7FFF, required: off })
                } else {
                    Ok((off % 0x1_0000int) as nat)
                }
            },
        },
        TokenValue::Unsigned(u) => if width < 16 && u >= two_to(width) {
            Err(ErrorKind::ImmediateTooLarge { max: two_to(width) - 1, got: u as int })
        } else {
            Ok(u as nat)
        },
        TokenValue::Signed(i) => if 1 <= width < 16 && (i < -(two_to((width - 1) as nat) as int) || i
            >= two_to((width - 1) as nat)) {
            Err(ErrorKind::ImmediateTooLarge { max: two_to((width - 1) as nat) - 1, got: i as int })
        } else {
            Ok((i as int % 0x1_0000_0000) as nat)
        },
        TokenValue::Register(r) => Ok(reg_num(r)),
        TokenValue::Bool(b) => Ok(
            if b {
                1
            } else {
                0
            },
        ),
        TokenValue::Opcode(_) => Ok(0),
    }
}

/// The bits one run contributes: zeros, ones, or the low bits of its
/// operand.
pub open spec fn run_piece(
    run: (char, usize),
    template: Seq<(char, usize)>,
    fields: Seq<(char, usize)>,
    tokens: Seq<TokenModel>,
    labels: Seq<(Seq<char>, usize)>,
    index: int,
) -> Result<nat, ErrorKind> {
    let (c, n) = run;
    if c == '0' {
        Ok(0)
    } else if c == '1' {
        Ok((two_to(n as nat) - 1) as nat)
    } else {
        let k = field_lookup(fields, c)->Some_0;
        match operand_bits(tokens[k as int].value, letter_width(template, c), labels, index) {
            Err(e) => Err(e),
            Ok(x) => Ok(x % two_to(n as nat)),
        }
    }
}

/// The runs `runs` (a prefix of `template`) encoded, most significant
/// first, as a number; or the first run's error.
pub open spec fn encode_prefix(
    runs: Seq<(char, usize)>,
    template: Seq<(char, usize)>,
    fields: Seq<(char, usize)>,
    tokens: Seq<TokenModel>,
    labels: Seq<(Seq<char>, usize)>,
    index: int,
) -> Result<nat, ErrorKind>
    decreases runs.len(),
{
    if runs.len() == 0 {
        Ok(0)
    } else {
        match encode_prefix(runs.drop_last(), template, fields, tokens, labels, index) {
            Err(e) => Err(e),
            Ok(acc) => match run_piece(runs.last(), template, fields, tokens, labels, index) {
                Err(e) => Err(e),
                Ok(p) => Ok(acc * two_to(runs.last().1 as nat) + p),
            },
        }
    }
}

/// The word that line `tokens`, instruction number `index`, encodes to
/// under a template and field map; errors carry the line's source line.
pub open spec fn construct_spec(
    tokens: Seq<TokenModel>,
    template: Seq<(char, usize)>,
    fields: Seq<(char, usize)>,
    labels: Seq<(Seq<char>, usize)>,
    index: int,
) -> Result<u32, ErrorModel> {
    match encode_prefix(template, template, fields, tokens, labels, index) {
        Ok(v) => Ok(v as u32),
        Err(k) => Err(ErrorModel { line: tokens[0].line, column: None, kind: k }),
    }
}

/// A template and field map fit a line: the template is 32 bits of `0`, `1`
/// and letters, and each letter names an operand of the line that is no
/// opcode.
pub open spec fn fits(tokens: Seq<TokenModel>, template: Seq<(char, usize)>, fields: Seq<(char, usize)>) -> bool {
    &&& tokens.len() >= 1
    &&& run_total(template) == 32
    &&& forall|i: int| 0 <= i < template.len() ==> is_template_char(#[trigger] template[i].0)
    &&& forall|i: int| 0 <= i < template.len() && is_field_letter(#[trigger] template[i].0) ==> {
        &&& field_lookup(fields, template[i].0) matches Some(k)
        &&& k < tokens.len()
        &&& !(tokens[k as int].value is Opcode)
    }
}

proof fn lemma_run_total_prefix(r: Seq<(char, usize)>, k: int, j: int)
    requires
        0 <= k <= j <= r.len(),
    ensures
        run_total(r.subrange(0, k)) <= run_total(r.subrange(0, j)),
    decreases j - k,
{
    if k < j {
        lemma_run_total_prefix(r, k, j - 1);
        assert(r.subrange(0, j).drop_last() =~= r.subrange(0, j - 1));
    }
}

proof fn lemma_letter_width_bound(r: Seq<(char, usize)>, c: char)
    ensures
        letter_width(r, c) <= run_total(r),
    decreases r.len(),
{
    if r.len() > 0 {
        lemma_letter_width_bound(r.drop_last(), c);
    }
}

proof fn lemma_prefix_error_stays(
    template: Seq<(char, usize)>,
    fields: Seq<(char, usize)>,
    tokens: Seq<TokenModel>,
    labels: Seq<(Seq<char>, usize)>,
    index: int,
    k: int,
    j: int,
)
    requires
        0 <= k <= j <= template.len(),
        encode_prefix(template.subrange(0, k), template, fields, tokens, labels, index) is Err,
    ensures
        encode_prefix(template.subrange(0, j), template, fields, tokens, labels, index)
            == encode_prefix(template.subrange(0, k), template, fields, tokens, labels, index),
    decreases j - k,
{
    if k < j {
        lemma_prefix_error_stays(template, fields, tokens, labels, index, k, j - 1);
        assert(template.subrange(0, j).drop_last() =~= template.subrange(0, j - 1));
    }
}

fn letter_width_exec(runs: &Vec<(char, usize)>, c: char) -> (r: usize)
    requires
        run_total(runs@) == 32,
    ensures
        r == letter_width(runs@, c),
        r <= 32,
{
    let mut total: usize = 0;
    let mut i: usize = 0;
    while i < runs.len()
        invariant
            i <= runs@.len(),
            run_total(runs@) == 32,
            total == letter_width(runs@.subrange(0, i as int), c),
        decreases runs@.len() - i,
    {
        proof {
            assert(runs@.subrange(0, i + 1).drop_last() =~= runs@.subrange(0, i as int));
            lemma_letter_width_bound(runs@.subrange(0, i + 1), c);
            lemma_run_total_prefix(runs@, i + 1, runs@.len() as int);
            assert(runs@.subrange(0, runs@.len() as int) =~= runs@);
        }
        if runs[i].0 == c {
            total = total + runs[i].1;
        }
        i = i + 1;
    }
    proof {
        assert(runs@.subrange(0, runs@.len() as int) =~= runs@);
        lemma_letter_width_bound(runs@, c);
    }
    total
}

/// The number an operand supplies to its field, before it is cut to a run's
/// length.
fn operand_value(
    value: &TokenVariant,
    width: usize,
    labels: &LabelTable,
    instruction: usize,
) -> (r: Result<u32, AssemblyErrorVariant>)
    requires
        width <= 32,
    ensures
        match operand_bits(value@, width as nat, labels@, instruction as int) {
            Ok(x) => r == Ok::<u32, AssemblyErrorVariant>(x as u32) && x < 0x1_0000_0000,
            Err(e) => r matches Err(v) && v@ == e,
        },
{
    proof {
        lemma_two_to_32();
        lemma_two_to_mono(width as nat, 32);
    }
    match value {
        TokenVariant::Label(name) => {
            match labels.get(name) {
                None => Err(AssemblyErrorVariant::NoLabelFound { name: name.clone() }),
                Some(li) => {
                    let off: i128 = li as i128 - instruction as i128;
                    if off < -0x8000 {
                        Err(AssemblyErrorVariant::OffsetTooLarge { limit: -0x8000, required: off })
                    } else if off > 0x7FFF {
                        Err(AssemblyErrorVariant::OffsetTooLarge { limit: 0x7FFF, required: off })
                    } else if off < 0 {
                        Ok((off + 0x1_0000) as u32)
                    } else {
                        Ok(off as u32)
                    }
                },
            }
        },
        TokenVariant::Unsigned(u) => {
            let m = two_to_exec(width);
            proof {
                lemma_two_to_adds(width as nat, 0);
            }
            if width < 16 && (*u as u64) >= m {
                proof {
                    lemma_two_to_mono(width as nat, 16);
                }
                Err(AssemblyErrorVariant::ImmediateTooLarge { max: (m - 1) as i32, got: *u as i32 })
            } else {
                Ok(*u as u32)
            }
        },
        TokenVariant::Signed(i) => {
            if 1 <= width && width < 16 {
                let h = two_to_exec(width - 1);
                proof {
                    lemma_two_to_mono((width - 1) as nat, 15);
                    reveal_with_fuel(two_to, 16);
                }
                let hi = h as i32;
                let v = *i as i32;
                if v < -hi || v >= hi {
                    return Err(AssemblyErrorVariant::ImmediateTooLarge { max: hi - 1, got: v });
                }
            }
            if *i < 0 {
                Ok((*i as i64 + 0x1_0000_0000) as u32)
            } else {
                Ok(*i as u32)
            }
        },
        TokenVariant::Register(reg) => Ok(reg.index() as u32),
        TokenVariant::Bool(b) => Ok(
            if *b {
                1
            } else {
                0
            },
        ),
        TokenVariant::Opcode(_) => Ok(0),
    }
}

fn push_run(
    bp: &mut BitPush,
    k: usize,
    tokens: &[Token],
    runs: &Vec<(char, usize)>,
    encoding: &Encoding,
    labels: &LabelTable,
    instruction: usize,
) -> (r: Result<(), AssemblyErrorVariant>)
    requires
        fits(models(tokens@), runs@, encoding@),
        k < runs@.len(),
        old(bp).wf(),
        old(bp).len() + runs@[k as int].1 <= 32,
    ensures
        match run_piece(runs@[k as int], runs@, encoding@, models(tokens@), labels@, instruction as int) {
            Ok(p) => r is Ok && final(bp).wf() && final(bp).len() == old(bp).len() + runs@[k as int].1
                && final(bp).value() == old(bp).value() * two_to(runs@[k as int].1 as nat) + p,
            Err(e) => r matches Err(v) && v@ == e,
        },
{
    let (c, n) = runs[k];
    if c == '0' {
        bp.push_zeros(n);
        proof {
            assert(old(bp).value() * two_to(n as nat) + 0 == old(bp).value() * two_to(n as nat));
        }
        Ok(())
    } else if c == '1' {
        bp.push_ones(n);
        Ok(())
    } else {
        assert(is_field_letter(runs@[k as int].0));
        let idx = encoding.get(c).unwrap();
        let width = letter_width_exec(runs, c);
        proof {
            assert(models(tokens@)[idx as int] == tokens@[idx as int]@);
        }
        let value = operand_value(&tokens[idx].variant, width, labels, instruction)?;
        bp.push(value, n);
        Ok(())
    }
}

/// Encodes the line `tokens`, instruction number `instruction`, by the
/// template and field map of its pattern. Runs of `0` and `1` give those
/// bits; a letter's run gives the low bits of its operand. Errors: an
/// immediate too large for a field narrower than 16 bits, an undefined
/// label, a label offset outside the signed 16-bit range.
pub fn construct_instruction(
    tokens: &[Token],
    bit_pattern: &BitRunLengthCoding,
    encoding: &Encoding,
    labels: &LabelTable,
    instruction: usize,
) -> (r: Result<u32, AssemblyError>)
    requires
        fits(models(tokens@), bit_pattern@, encoding@),
    ensures
        construct_spec(models(tokens@), bit_pattern@, encoding@, labels@, instruction as int) matches Ok(w)
            ==> r == Ok::<u32, AssemblyError>(w),
        construct_spec(models(tokens@), bit_pattern@, encoding@, labels@, instruction as int) matches Err(em)
            ==> (r matches Err(x) && x@ == em),
{
    let runs = bit_pattern.get();
    let ghost template = bit_pattern@;
    let ghost ts = models(tokens@);
    let mut bp = BitPush::new();
    let mut k: usize = 0;
    proof {
        assert(template.subrange(0, 0) =~= Seq::<(char, usize)>::empty());
        assert(template.subrange(0, template.len() as int) =~= template);
        assert(ts[0] == tokens@[0]@);
    }
    while k < runs.len()
        invariant
            runs@ == template,
            template == bit_pattern@,
            ts == models(tokens@),
            fits(ts, template, encoding@),
            k <= template.len(),
            template.subrange(0, template.len() as int) == template,
            bp.wf(),
            bp.len() == run_total(template.subrange(0, k as int)),
            encode_prefix(template.subrange(0, k as int), template, encoding@, ts, labels@, instruction as int)
                == Ok::<nat, ErrorKind>(bp.value()),
        decreases template.len() - k,
    {
        let ghost pre = template.subrange(0, k as int);
        let ghost next = template.subrange(0, k + 1);
        proof {
            assert(next.drop_last() =~= pre);
            assert(next.last() == template[k as int]);
            lemma_run_total_prefix(template, k + 1, template.len() as int);
        }
        let pushed = push_run(&mut bp, k, tokens, runs, encoding, labels, instruction);
        if let Err(variant) = pushed {
            proof {
                lemma_prefix_error_stays(template, encoding@, ts, labels@, instruction as int, k + 1, template.len() as int);
            }
            return Err(AssemblyError { line: tokens[0].line, column: None, variant });
        }
        k = k + 1;
    }
    let w = bp.get_value().unwrap();
    Ok(w)
}

proof fn lemma_piece_bound(
    run: (char, usize),
    template: Seq<(char, usize)>,
    fields: Seq<(char, usize)>,
    tokens: Seq<TokenModel>,
    labels: Seq<(Seq<char>, usize)>,
    index: int,
)
    requires
        run_piece(run, template, fields, tokens, labels, index) is Ok,
    ensures
        run_piece(run, template, fields, tokens, labels, index)->Ok_0 < two_to(run.1 as nat),
{
    lemma_two_to_adds(run.1 as nat, 0);
}

/// The encoding of the first `j` runs is that of the first `k` runs
/// followed by the bits of runs `k..j`: dividing off those bits gives the
/// shorter encoding back.
pub proof fn lemma_encode_split(
    template: Seq<(char, usize)>,
    fields: Seq<(char, usize)>,
    tokens: Seq<TokenModel>,
    labels: Seq<(Seq<char>, usize)>,
    index: int,
    k: int,
    j: int,
)
    requires
        0 <= k <= j <= template.len(),
        encode_prefix(template.subrange(0, j), template, fields, tokens, labels, index) is Ok,
    ensures
        encode_prefix(template.subrange(0, k), template, fields, tokens, labels, index) is Ok,
        run_total(template.subrange(0, k)) <= run_total(template.subrange(0, j)),
        encode_prefix(template.subrange(0, j), template, fields, tokens, labels, index)->Ok_0 / two_to(
            (run_total(template.subrange(0, j)) - run_total(template.subrange(0, k))) as nat,
        ) == encode_prefix(template.subrange(0, k), template, fields, tokens, labels, index)->Ok_0,
    decreases j - k,
{
    let ej = encode_prefix(template.subrange(0, j), template, fields, tokens, labels, index);
    if j == k {
        assert(two_to(0) == 1);
        let v = ej->Ok_0;
        assert(v / 1 == v);
    } else {
        let sj = template.subrange(0, j);
        let sj1 = template.subrange(0, j - 1);
        assert(sj.drop_last() =~= sj1);
        assert(sj.last() == template[j - 1]);
        let run = template[j - 1];
        lemma_encode_split(template, fields, tokens, labels, index, k, j - 1);
        lemma_piece_bound(run, template, fields, tokens, labels, index);
        let a = encode_prefix(template.subrange(0, k), template, fields, tokens, labels, index)->Ok_0;
        let v1 = encode_prefix(sj1, template, fields, tokens, labels, index)->Ok_0;
        let p = run_piece(run, template, fields, tokens, labels, index)->Ok_0;
        let n = run.1 as nat;
        let tk = run_total(template.subrange(0, k));
        let t1 = run_total(sj1);
        let d1 = two_to((t1 - tk) as nat);
        let q = two_to(n);
        lemma_two_to_adds((t1 - tk) as nat, n);
        lemma_two_to_adds(n, 0);
        lemma_two_to_adds((t1 - tk) as nat, 0);
        assert(run_total(sj) == t1 + n);
        assert(((t1 - tk) as nat + n) as nat == (run_total(sj) - tk) as nat);
        let r1 = v1 % d1;
        vstd::arithmetic::div_mod::lemma_fundamental_div_mod(v1 as int, d1 as int);
        assert(v1 / d1 == a);
        assert(v1 == d1 * (v1 / d1) + r1);
        assert(v1 == a * d1 + r1) by (nonlinear_arith)
            requires v1 == d1 * (v1 / d1) + r1, v1 / d1 == a;
        assert(0 <= r1 < d1);
        let v = v1 * q + p;
        assert(v == a * (d1 * q) + (r1 * q + p)) by (nonlinear_arith)
            requires v == v1 * q + p, v1 == a * d1 + r1;
        assert(r1 * q + p < d1 * q) by (nonlinear_arith)
            requires r1 + 1 <= d1, p < q, q > 0;
        assert(0 <= r1 * q + p) by (nonlinear_arith)
            requires r1 >= 0, q > 0, p >= 0;
        assert(d1 * q > 0) by (nonlinear_arith)
            requires d1 > 0, q > 0;
        vstd::arithmetic::div_mod::lemma_fundamental_div_mod_converse(v as int, (d1 * q) as int, a as int, (r1 * q + p) as int);
    }
}

/// Each run's bits can be read back from the word: the field of run `k`,
/// taken from its position in the word, is what that run contributed (zeros,
/// ones, or the low bits of its operand).
pub proof fn lemma_fields_round_trip(
    tokens: Seq<TokenModel>,
    template: Seq<(char, usize)>,
    fields: Seq<(char, usize)>,
    labels: Seq<(Seq<char>, usize)>,
    index: int,
    k: int,
)
    requires
        fits(tokens, template, fields),
        construct_spec(tokens, template, fields, labels, index) is Ok,
        0 <= k < template.len(),
    ensures
        run_piece(template[k], template, fields, tokens, labels, index) is Ok,
        (construct_spec(tokens, template, fields, labels, index)->Ok_0 as nat / two_to(
            (32 - run_total(template.subrange(0, k + 1))) as nat,
        )) % two_to(template[k].1 as nat) == run_piece(template[k], template, fields, tokens, labels, index)->Ok_0,
{
    let n = template.len() as int;
    assert(template.subrange(0, n) =~= template);
    lemma_encode_word(tokens, template, fields, labels, index);
    lemma_encode_split(template, fields, tokens, labels, index, k + 1, n);
    let sk1 = template.subrange(0, k + 1);
    assert(sk1.drop_last() =~= template.subrange(0, k));
    assert(sk1.last() == template[k]);
    lemma_encode_split(template, fields, tokens, labels, index, k, k + 1);
    lemma_piece_bound(template[k], template, fields, tokens, labels, index);
    let a = encode_prefix(template.subrange(0, k), template, fields, tokens, labels, index)->Ok_0;
    let p = run_piece(template[k], template, fields, tokens, labels, index)->Ok_0;
    let q = two_to(template[k].1 as nat);
    vstd::arithmetic::div_mod::lemma_fundamental_div_mod_converse((a * q + p) as int, q as int, a as int, p as int);
}

/// The number a template encodes to fits in 32 bits, so the word is that
/// number.
pub proof fn lemma_encode_word(
    tokens: Seq<TokenModel>,
    template: Seq<(char, usize)>,
    fields: Seq<(char, usize)>,
    labels: Seq<(Seq<char>, usize)>,
    index: int,
)
    requires
        fits(tokens, template, fields),
        construct_spec(tokens, template, fields, labels, index) is Ok,
    ensures
        encode_prefix(template, template, fields, tokens, labels, index) is Ok,
        encode_prefix(template, template, fields, tokens, labels, index)->Ok_0 < 0x1_0000_0000,
        construct_spec(tokens, template, fields, labels, index)->Ok_0 as nat == encode_prefix(
            template,
            template,
            fields,
            tokens,
            labels,
            index,
        )->Ok_0,
{
    let n = template.len() as int;
    assert(template.subrange(0, n) =~= template);
    assert(template.subrange(0, 0) =~= Seq::<(char, usize)>::empty());
    lemma_encode_split(template, fields, tokens, labels, index, 0, n);
    lemma_two_to_32();
    let v = encode_prefix(template, template, fields, tokens, labels, index)->Ok_0;
    assert(run_total(template.subrange(0, 0)) == 0);
    assert(v / 0x1_0000_0000 == 0);
}

/// A label operand supplies the offset from its instruction to the label,
/// `label_index - index`: in the signed 16-bit range as its two's
/// complement, outside it as `OffsetTooLarge` with the limit it crossed.
pub proof fn lemma_label_operand(name: Seq<char>, width: nat, labels: Seq<(Seq<char>, usize)>, index: int)
    requires
        label_lookup(labels, name) is Some,
    ensures
        ({
            let off = label_lookup(labels, name)->Some_0 - index;
            let r = operand_bits(TokenValue::Label(name), width, labels, index);
            &&& -0x8000 <= off <= 0x7FFF ==> r == Ok::<nat, ErrorKind>((off % 0x1_0000) as nat)
            &&& off < -0x8000 ==> r == Err::<nat, ErrorKind>(ErrorKind::OffsetTooLarge { limit: -0x8000, required: off })
            &&& off > 0x7FFF ==> r == Err::<nat, ErrorKind>(ErrorKind::OffsetTooLarge { limit: 0x7FFF, required: off })
        }),
{
}

/// An unsigned immediate that does not fit a field narrower than 16 bits
/// is refused with the field's largest value; a 4-bit field refuses 16 and
/// more with maximum 15.
pub proof fn lemma_narrow_field_rejects(u: u16, width: nat, labels: Seq<(Seq<char>, usize)>, index: int)
    requires
        width < 16,
        u >= two_to(width),
    ensures
        operand_bits(TokenValue::Unsigned(u), width, labels, index) == Err::<nat, ErrorKind>(
            ErrorKind::ImmediateTooLarge { max: two_to(width) - 1, got: u as int },
        ),
        width == 4 ==> two_to(width) - 1 == 15,
{
    reveal_with_fuel(two_to, 5);
}

/// Every field letter's operand is one its field accepts: immediates fit,
/// labels are defined and within a signed 16-bit offset.
pub open spec fn operands_accepted(
    tokens: Seq<TokenModel>,
    template: Seq<(char, usize)>,
    fields: Seq<(char, usize)>,
    labels: Seq<(Seq<char>, usize)>,
    index: int,
) -> bool {
    forall|i: int|
        0 <= i < template.len() && is_field_letter(#[trigger] template[i].0) ==> operand_bits(
            tokens[field_lookup(fields, template[i].0)->Some_0 as int].value,
            letter_width(template, template[i].0),
            labels,
            index,
        ) is Ok
}

proof fn lemma_prefix_ok(
    template: Seq<(char, usize)>,
    fields: Seq<(char, usize)>,
    tokens: Seq<TokenModel>,
    labels: Seq<(Seq<char>, usize)>,
    index: int,
    j: int,
)
    requires
        0 <= j <= template.len(),
        forall|i: int| 0 <= i < j ==> (#[trigger] run_piece(template[i], template, fields, tokens, labels, index)) is Ok,
    ensures
        encode_prefix(template.subrange(0, j), template, fields, tokens, labels, index) is Ok,
    decreases j,
{
    if j > 0 {
        lemma_prefix_ok(template, fields, tokens, labels, index, j - 1);
        let sj = template.subrange(0, j);
        assert(sj.drop_last() =~= template.subrange(0, j - 1));
        assert(sj.last() == template[j - 1]);
        assert(run_piece(template[j - 1], template, fields, tokens, labels, index) is Ok);
    }
}

proof fn lemma_runs_accepted(
    tokens: Seq<TokenModel>,
    template: Seq<(char, usize)>,
    fields: Seq<(char, usize)>,
    labels: Seq<(Seq<char>, usize)>,
    index: int,
)
    requires
        fits(tokens, template, fields),
        operands_accepted(tokens, template, fields, labels, index),
    ensures
        forall|i: int| 0 <= i < template.len() ==> (#[trigger] run_piece(template[i], template, fields, tokens, labels, index)) is Ok,
{
    assert forall|i: int| 0 <= i < template.len() implies (#[trigger] run_piece(template[i], template, fields, tokens, labels, index)) is Ok by {
        let c = template[i].0;
        assert(is_template_char(c));
        if c != '0' && c != '1' {
            assert(is_field_letter(c));
        }
    }
}

/// A line whose operands all fit their fields encodes without error.
pub proof fn lemma_operands_accepted_encode(
    tokens: Seq<TokenModel>,
    template: Seq<(char, usize)>,
    fields: Seq<(char, usize)>,
    labels: Seq<(Seq<char>, usize)>,
    index: int,
)
    requires
        fits(tokens, template, fields),
        operands_accepted(tokens, template, fields, labels, index),
    ensures
        construct_spec(tokens, template, fields, labels, index) is Ok,
{
    lemma_runs_accepted(tokens, template, fields, labels, index);
    lemma_prefix_ok(template, fields, tokens, labels, index, template.len() as int);
    assert(template.subrange(0, template.len() as int) =~= template);
}

/// The first run whose operand is refused decides the error, reported on
/// the line's source line.
pub proof fn lemma_first_failing_run(
    tokens: Seq<TokenModel>,
    template: Seq<(char, usize)>,
    fields: Seq<(char, usize)>,
    labels: Seq<(Seq<char>, usize)>,
    index: int,
    j: int,
)
    requires
        0 <= j < template.len(),
        forall|i: int| 0 <= i < j ==> (#[trigger] run_piece(template[i], template, fields, tokens, labels, index)) is Ok,
        run_piece(template[j], template, fields, tokens, labels, index) is Err,
    ensures
        construct_spec(tokens, template, fields, labels, index) == Err::<u32, ErrorModel>(
            ErrorModel {
                line: tokens[0].line,
                column: None,
                kind: run_piece(template[j], template, fields, tokens, labels, index)->Err_0,
            },
        ),
{
    lemma_prefix_ok(template, fields, tokens, labels, index, j);
    let sj1 = template.subrange(0, j + 1);
    assert(sj1.drop_last() =~= template.subrange(0, j));
    assert(sj1.last() == template[j]);
    lemma_prefix_error_stays(template, fields, tokens, labels, index, j + 1, template.len() as int);
    assert(template.subrange(0, template.len() as int) =~= template);
}

/// An unsigned immediate too large for its letter's field, narrower than 16
/// bits, makes the line fail with `ImmediateTooLarge` giving the field's
/// largest value (15 for a 4-bit field), once the runs before it are
/// accepted.
pub proof fn lemma_narrow_field_error(
    tokens: Seq<TokenModel>,
    template: Seq<(char, usize)>,
    fields: Seq<(char, usize)>,
    labels: Seq<(Seq<char>, usize)>,
    index: int,
    j: int,
    u: u16,
)
    requires
        fits(tokens, template, fields),
        0 <= j < template.len(),
        is_field_letter(template[j].0),
        tokens[field_lookup(fields, template[j].0)->Some_0 as int].value == TokenValue::Unsigned(u),
        letter_width(template, template[j].0) < 16,
        u >= two_to(letter_width(template, template[j].0)),
        forall|i: int| 0 <= i < j ==> (#[trigger] run_piece(template[i], template, fields, tokens, labels, index)) is Ok,
    ensures
        construct_spec(tokens, template, fields, labels, index) == Err::<u32, ErrorModel>(
            ErrorModel {
                line: tokens[0].line,
                column: None,
                kind: ErrorKind::ImmediateTooLarge {
                    max: two_to(letter_width(template, template[j].0)) - 1,
                    got: u as int,
                },
            },
        ),
        letter_width(template, template[j].0) == 4 ==> two_to(4) - 1 == 15,
{
    reveal_with_fuel(two_to, 5);
    lemma_first_failing_run(tokens, template, fields, labels, index, j);
}

/// A label operand puts the offset `label_index - index` into its field:
/// when every operand is accepted, the field read back from the word is
/// that offset's 16-bit two's complement cut to the run; when the offset is
/// outside the signed 16-bit range the line fails with `OffsetTooLarge`
/// (once the runs before it are accepted). For a label on the last line,
/// `label_index` is the number of instruction lines
/// (`lemma_label_at_last_line`).
pub proof fn lemma_label_field(
    tokens: Seq<TokenModel>,
    template: Seq<(char, usize)>,
    fields: Seq<(char, usize)>,
    labels: Seq<(Seq<char>, usize)>,
    index: int,
    j: int,
    name: Seq<char>,
)
    requires
        fits(tokens, template, fields),
        0 <= j < template.len(),
        is_field_letter(template[j].0),
        tokens[field_lookup(fields, template[j].0)->Some_0 as int].value == TokenValue::Label(name),
        label_lookup(labels, name) is Some,
    ensures
        ({
            let off = label_lookup(labels, name)->Some_0 - index;
            &&& operands_accepted(tokens, template, fields, labels, index) ==> {
                &&& construct_spec(tokens, template, fields, labels, index) is Ok
                &&& (construct_spec(tokens, template, fields, labels, index)->Ok_0 as nat / two_to(
                    (32 - run_total(template.subrange(0, j + 1))) as nat,
                )) % two_to(template[j].1 as nat) == ((off % 0x1_0000) as nat) % two_to(template[j].1 as nat)
            }
            &&& (off < -0x8000 || off > 0x7FFF) && (forall|i: int|
                0 <= i < j ==> (#[trigger] run_piece(template[i], template, fields, tokens, labels, index)) is Ok)
                ==> construct_spec(tokens, template, fields, labels, index) == Err::<u32, ErrorModel>(
                ErrorModel {
                    line: tokens[0].line,
                    column: None,
                    kind: ErrorKind::OffsetTooLarge {
                        limit: if off < -0x8000 {
                            -0x8000
                        } else {
                            0x7FFF
                        },
                        required: off,
                    },
                },
            )
        }),
{
    let off = label_lookup(labels, name)->Some_0 - index;
    if operands_accepted(tokens, template, fields, labels, index) {
        lemma_operands_accepted_encode(tokens, template, fields, labels, index);
        lemma_fields_round_trip(tokens, template, fields, labels, index, j);
    }
    if (off < -0x8000 || off > 0x7FFF) && (forall|i: int|
        0 <= i < j ==> (#[trigger] run_piece(template[i], template, fields, tokens, labels, index)) is Ok) {
        lemma_first_failing_run(tokens, template, fields, labels, index, j);
    }
}

} // verus!
