//! The tokenizer: source text to lines of typed tokens.
//!
//! Lines are separated by `\n`; within a line, words are separated by
//! spaces, tabs and carriage returns. Lines without words yield nothing.
//! Each word is, in this order of preference: a mnemonic, a label (leading
//! `.`), an unsigned 16-bit literal (decimal, `0x` hex or `0b` binary), a
//! signed literal (`-` and a decimal number down to -32768), a register
//! (`r0`..`r15`), or `true`/`false`.
use vstd::prelude::*;
use crate::construct::models;
use crate::error::{AssemblyError, AssemblyErrorVariant, ErrorKind, ErrorModel, TokenizationError, TokenizationErrorVariant};
use crate::literal::{scan_digits, scan_spec, DigitScan};
use crate::opcode::{opcode_lookup, Opcode};
use crate::register::{register_lookup, Register};
use crate::text::{chars_equal, chars_of};
use crate::token::{Token, TokenModel, TokenValue, TokenVariant};

verus! {

/// A character that separates words within a line.
pub open spec fn is_blank(c: char) -> bool {
    c == ' ' || c == '\t' || c == '\r'
}

/// An ASCII letter.
pub open spec fn is_alpha(c: char) -> bool {
    (65 <= c as u32 <= 90) || (97 <= c as u32 <= 122)
}

/// Reading `w` as an unsigned literal.
pub open spec fn unsigned_scan(w: Seq<char>) -> DigitScan {
    if w.len() >= 2 && w[0] == '0' && w[1] == 'x' {
        scan_spec(w.subrange(2, w.len() as int), 16, 0xFFFF)
    } else if w.len() >= 2 && w[0] == '0' && w[1] == 'b' {
        scan_spec(w.subrange(2, w.len() as int), 2, 0xFFFF)
    } else {
        scan_spec(w, 10, 0xFFFF)
    }
}

/// Reading `w` as a negative literal: the magnitude after the `-`.
pub open spec fn signed_scan(w: Seq<char>) -> DigitScan {
    if w.len() >= 1 && w[0] == '-' {
        scan_spec(w.subrange(1, w.len() as int), 10, 0x8000)
    } else {
        DigitScan::Malformed
    }
}

/// Why a word is no token.
#[derive(Debug, Clone, Copy, PartialEq, Eq, Structural)]
pub enum WordError {
    OpcodeNotRecognised,
    ParseIntError,
    Unrecognizable,
}

/// The token value a word stands for, or why it stands for none.
pub open spec fn classify(w: Seq<char>) -> Result<TokenValue, WordError> {
    if opcode_lookup(w) is Some {
        Ok(TokenValue::Opcode(opcode_lookup(w)->Some_0))
    } else if w.len() >= 1 && w[0] == '.' {
        Ok(TokenValue::Label(w))
    } else if unsigned_scan(w) is Value {
        Ok(TokenValue::Unsigned(unsigned_scan(w)->Value_0 as u16))
    } else if signed_scan(w) is Value {
        Ok(TokenValue::Signed((0 - signed_scan(w)->Value_0) as i16))
    } else if register_lookup(w) is Some {
        Ok(TokenValue::Register(register_lookup(w)->Some_0))
    } else if w == "true"@ {
        Ok(TokenValue::Bool(true))
    } else if w == "false"@ {
        Ok(TokenValue::Bool(false))
    } else if unsigned_scan(w) is TooLarge || signed_scan(w) is TooLarge {
        Err(WordError::ParseIntError)
    } else if w.len() >= 1 && is_alpha(w[0]) {
        Err(WordError::OpcodeNotRecognised)
    } else {
        Err(WordError::Unrecognizable)
    }
}

/// Where a word stands: its 0-based line, its characters `start..end` in the
/// source, and its 0-based position among the words of its line.
#[derive(Debug, Clone, Copy, PartialEq, Eq, Structural)]
pub struct WordSpan {
    pub line: usize,
    pub start: usize,
    pub end: usize,
    pub index: usize,
}

/// The scanner's state after a prefix of the source: the words found, the
/// current line and how many words it has, and where an open word started.
pub struct ScanState {
    pub words: Seq<WordSpan>,
    pub line: nat,
    pub index: nat,
    pub open: Option<nat>,
}

/// Ends the open word, if any, at `end`.
pub open spec fn close_word(st: ScanState, end: nat) -> ScanState {
    match st.open {
        Some(b) => ScanState {
            words: st.words.push(WordSpan { line: st.line as usize, start: b as usize, end: end as usize, index: st.index as usize }),
            line: st.line,
            index: st.index + 1,
            open: None,
        },
        None => st,
    }
}

/// The scanner's state after the first `n` characters of `s`.
pub open spec fn scan(s: Seq<char>, n: nat) -> ScanState
    decreases n,
{
    if n == 0 {
        ScanState { words: Seq::empty(), line: 0, index: 0, open: None }
    } else {
        let st = scan(s, (n - 1) as nat);
        let c = s[n - 1];
        if c == '\n' {
            let st2 = close_word(st, (n - 1) as nat);
            ScanState { words: st2.words, line: st.line + 1, index: 0, open: None }
        } else if is_blank(c) {
            close_word(st, (n - 1) as nat)
        } else if st.open is None {
            ScanState { open: Some((n - 1) as nat), ..st }
        } else {
            st
        }
    }
}

/// The words of `s`, in order.
pub open spec fn words_of(s: Seq<char>) -> Seq<WordSpan> {
    close_word(scan(s, s.len()), s.len()).words
}

/// The error a word that is no token gives.
pub open spec fn word_error(e: WordError, w: WordSpan) -> ErrorModel {
    match e {
        WordError::Unrecognizable => ErrorModel {
            line: w.line as nat,
            column: None,
            kind: ErrorKind::UnrecognizableParam { param_index: w.index as nat },
        },
        WordError::OpcodeNotRecognised => ErrorModel {
            line: w.line as nat,
            column: Some(w.index),
            kind: ErrorKind::TokenizationError(TokenizationError {
                line: w.line,
                position: Some(w.index),
                variant: TokenizationErrorVariant::OpcodeNotRecognised,
            }),
        },
        WordError::ParseIntError => ErrorModel {
            line: w.line as nat,
            column: Some(w.index),
            kind: ErrorKind::TokenizationError(TokenizationError {
                line: w.line,
                position: Some(w.index),
                variant: TokenizationErrorVariant::ParseIntError,
            }),
        },
    }
}

/// The tokens of the words `ws` of `s`, or the first word's error.
pub open spec fn tokens_of(s: Seq<char>, ws: Seq<WordSpan>) -> Result<Seq<TokenModel>, ErrorModel>
    decreases ws.len(),
{
    if ws.len() == 0 {
        Ok(Seq::empty())
    } else {
        match tokens_of(s, ws.drop_last()) {
            Err(e) => Err(e),
            Ok(ts) => {
                let w = ws.last();
                match classify(s.subrange(w.start as int, w.end as int)) {
                    Ok(v) => Ok(ts.push(TokenModel { line: w.line as nat, value: v })),
                    Err(e) => Err(word_error(e, w)),
                }
            },
        }
    }
}

/// Tokens grouped into lines: a word at position 0 of its line starts a
/// new group.
pub open spec fn group_lines(ws: Seq<WordSpan>, ts: Seq<TokenModel>) -> Seq<Seq<TokenModel>>
    decreases ws.len(),
{
    if ws.len() == 0 || ts.len() == 0 {
        Seq::empty()
    } else {
        let g = group_lines(ws.drop_last(), ts.drop_last());
        if ws.last().index == 0 || g.len() == 0 {
            g.push(seq![ts.last()])
        } else {
            g.update(g.len() - 1, g.last().push(ts.last()))
        }
    }
}

/// The token lines of source `s`, or the first word's error.
pub open spec fn tokenize_spec(s: Seq<char>) -> Result<Seq<Seq<TokenModel>>, ErrorModel> {
    match tokens_of(s, words_of(s)) {
        Ok(ts) => Ok(group_lines(words_of(s), ts)),
        Err(e) => Err(e),
    }
}

/// The models of lines of tokens.
pub open spec fn lines_model(v: Seq<Vec<Token>>) -> Seq<Seq<TokenModel>> {
    v.map_values(|l: Vec<Token>| models(l@))
}

/// Finds the words of `chars`.
pub fn scan_words(chars: &Vec<char>) -> (r: Vec<WordSpan>)
    ensures
        r@ == words_of(chars@),
{
    let mut words: Vec<WordSpan> = Vec::new();
    let mut line: usize = 0;
    let mut index: usize = 0;
    let mut open: Option<usize> = None;
    let mut i: usize = 0;
    while i < chars.len()
        invariant
            i <= chars@.len(),
            line <= i,
            index <= i,
            open matches Some(b) ==> b < i,
            words@ == scan(chars@, i as nat).words,
            line as nat == scan(chars@, i as nat).line,
            index as nat == scan(chars@, i as nat).index,
            scan(chars@, i as nat).open == (match open { Some(b) => Some(b as nat), None => None::<nat> }),
        decreases chars@.len() - i,
    {
        let c = chars[i];
        if c == '\n' || c == ' ' || c == '\t' || c == '\r' {
            if let Some(b) = open {
                words.push(WordSpan { line, start: b, end: i, index });
                index = index + 1;
                open = None;
            }
            if c == '\n' {
                line = line + 1;
                index = 0;
            }
        } else if open.is_none() {
            open = Some(i);
        }
        i = i + 1;
    }
    if let Some(b) = open {
        words.push(WordSpan { line, start: b, end: i, index });
    }
    words
}

/// The token value the word `chars[start..end]` of `src` stands for.
pub fn classify_word(src: &str, chars: &[char], start: usize, end: usize) -> (r: Result<TokenVariant, WordError>)
    requires
        chars@ == src@,
        start < end <= chars@.len(),
    ensures
        match classify(chars@.subrange(start as int, end as int)) {
            Ok(v) => r matches Ok(t) && t@ == v,
            Err(e) => r == Err::<TokenVariant, WordError>(e),
        },
{
    let ghost w = chars@.subrange(start as int, end as int);
    if let Some(op) = Opcode::parse_chars(chars, start, end) {
        return Ok(TokenVariant::Opcode(op));
    }
    if chars[start] == '.' {
        let name = src.substring_char(start, end).to_owned();
        return Ok(TokenVariant::Label(name));
    }
    let n = end - start;
    let unsigned = if n >= 2 && chars[start] == '0' && chars[start + 1] == 'x' {
        proof {
            assert(w.subrange(2, w.len() as int) =~= chars@.subrange(start + 2, end as int));
        }
        scan_digits(chars, start + 2, end, 16, 0xFFFF)
    } else if n >= 2 && chars[start] == '0' && chars[start + 1] == 'b' {
        proof {
            assert(w.subrange(2, w.len() as int) =~= chars@.subrange(start + 2, end as int));
        }
        scan_digits(chars, start + 2, end, 2, 0xFFFF)
    } else {
        scan_digits(chars, start, end, 10, 0xFFFF)
    };
    if let DigitScan::Value(v) = unsigned {
        return Ok(TokenVariant::Unsigned(v as u16));
    }
    let signed = if chars[start] == '-' {
        proof {
            assert(w.subrange(1, w.len() as int) =~= chars@.subrange(start + 1, end as int));
        }
        scan_digits(chars, start + 1, end, 10, 0x8000)
    } else {
        DigitScan::Malformed
    };
    if let DigitScan::Value(v) = signed {
        return Ok(TokenVariant::Signed((0 - v as i32) as i16));
    }
    if let Some(reg) = Register::parse_chars(chars, start, end) {
        return Ok(TokenVariant::Register(reg));
    }
    if chars_equal(chars, start, end, "true") {
        return Ok(TokenVariant::Bool(true));
    }
    if chars_equal(chars, start, end, "false") {
        return Ok(TokenVariant::Bool(false));
    }
    if unsigned == DigitScan::TooLarge || signed == DigitScan::TooLarge {
        return Err(WordError::ParseIntError);
    }
    let c0 = chars[start] as u32;
    if (65 <= c0 && c0 <= 90) || (97 <= c0 && c0 <= 122) {
        Err(WordError::OpcodeNotRecognised)
    } else {
        Err(WordError::Unrecognizable)
    }
}

/// Words found in a prefix of the source are non-empty and lie within it.
pub proof fn lemma_scan_wf(s: Seq<char>, n: nat)
    requires
        n <= s.len(),
        s.len() <= usize::MAX,
    ensures
        forall|i: int| 0 <= i < scan(s, n).words.len() ==> {
            let w = #[trigger] scan(s, n).words[i];
            w.start < w.end <= n
        },
        scan(s, n).open matches Some(b) ==> b < n,
        scan(s, n).line <= n,
    decreases n,
{
    if n > 0 {
        lemma_scan_wf(s, (n - 1) as nat);
        let st = scan(s, (n - 1) as nat);
        let st2 = close_word(st, (n - 1) as nat);
        assert forall|i: int| 0 <= i < st2.words.len() implies {
            let w = #[trigger] st2.words[i];
            w.start < w.end <= n - 1
        } by {
            if i < st.words.len() {
                assert(st2.words[i] == st.words[i]);
            }
        }
    }
}

/// The words of a source are non-empty and lie within it.
pub proof fn lemma_words_wf(s: Seq<char>)
    requires
        s.len() <= usize::MAX,
    ensures
        forall|i: int| 0 <= i < words_of(s).len() ==> {
            let w = #[trigger] words_of(s)[i];
            w.start < w.end <= s.len()
        },
{
    lemma_scan_wf(s, s.len());
    let st = scan(s, s.len());
    let st2 = close_word(st, s.len());
    assert forall|i: int| 0 <= i < st2.words.len() implies {
        let w = #[trigger] st2.words[i];
        w.start < w.end <= s.len()
    } by {
        if i < st.words.len() {
            assert(st2.words[i] == st.words[i]);
        }
    }
}

/// Splits the source into lines of tokens. Lines without words are left
/// out; every token carries its 0-based source line. The first word that is
/// no token gives the error.
pub fn tokenize(src: &str) -> (r: Result<Vec<Vec<Token>>, AssemblyError>)
    ensures
        tokenize_spec(src@) matches Ok(ls) ==> (r matches Ok(v) && lines_model(v@) == ls),
        tokenize_spec(src@) matches Err(e) ==> (r matches Err(x) && x@ == e),
{
    let chars = chars_of(src);
    let words = scan_words(&chars);
    let ghost ws = words@;
    let ghost s = chars@;
    proof {
        lemma_words_wf(s);
    }
    let mut lines: Vec<Vec<Token>> = Vec::new();
    let mut current: Vec<Token> = Vec::new();
    let mut i: usize = 0;
    while i < words.len()
        invariant
            s == chars@,
            s == src@,
            ws == words@,
            ws == words_of(s),
            i <= ws.len(),
            forall|j: int| 0 <= j < ws.len() ==> {
                let w = #[trigger] ws[j];
                w.start < w.end <= s.len()
            },
            tokens_of(s, ws.subrange(0, i as int)) is Ok,
            i == 0 ==> lines@.len() == 0 && current@.len() == 0,
            i > 0 ==> current@.len() > 0 && group_lines(ws.subrange(0, i as int), tokens_of(s, ws.subrange(0, i as int))->Ok_0)
                == lines_model(lines@).push(models(current@)),
            tokens_of(s, ws.subrange(0, i as int))->Ok_0.len() == i,
        decreases ws.len() - i,
    {
        let w = words[i];
        let ghost pre = ws.subrange(0, i as int);
        let ghost next = ws.subrange(0, i + 1);
        proof {
            assert(next.drop_last() =~= pre);
            assert(next.last() == w);
        }
        let variant = match classify_word(src, chars.as_slice(), w.start, w.end) {
            Ok(v) => v,
            Err(e) => {
                proof {
                    lemma_tokens_error_stays(s, ws, i + 1, ws.len() as int);
                    assert(ws.subrange(0, ws.len() as int) =~= ws);
                }
                return Err(match e {
                    WordError::Unrecognizable => AssemblyError {
                        line: w.line,
                        column: None,
                        variant: AssemblyErrorVariant::UnrecognizableParam { param_index: w.index },
                    },
                    WordError::OpcodeNotRecognised => AssemblyError {
                        line: w.line,
                        column: Some(w.index),
                        variant: AssemblyErrorVariant::TokenizationError(TokenizationError {
                            line: w.line,
                            position: Some(w.index),
                            variant: TokenizationErrorVariant::OpcodeNotRecognised,
                        }),
                    },
                    WordError::ParseIntError => AssemblyError {
                        line: w.line,
                        column: Some(w.index),
                        variant: AssemblyErrorVariant::TokenizationError(TokenizationError {
                            line: w.line,
                            position: Some(w.index),
                            variant: TokenizationErrorVariant::ParseIntError,
                        }),
                    },
                });
            },
        };
        let token = Token { line: w.line, variant };
        let ghost ts = tokens_of(s, pre)->Ok_0;
        let ghost g = group_lines(pre, ts);
        proof {
            assert(tokens_of(s, next)->Ok_0 == ts.push(token@));
            assert(ts.push(token@).drop_last() =~= ts);
            assert(group_lines(next, ts.push(token@)) == if w.index == 0 || g.len() == 0 {
                g.push(seq![token@])
            } else {
                g.update(g.len() - 1, g.last().push(token@))
            });
        }
        if w.index == 0 && current.len() > 0 {
            let done = current;
            proof {
                assert(lines_model(lines@.push(done)) =~= lines_model(lines@).push(models(done@)));
            }
            lines.push(done);
            current = Vec::new();
            current.push(token);
            proof {
                assert(models(current@) =~= seq![token@]);
            }
        } else {
            let ghost before = current@;
            current.push(token);
            proof {
                assert(models(current@) =~= models(before).push(token@));
                if i > 0 {
                    let g = group_lines(pre, ts);
                    assert(g.len() > 0);
                    assert(lines_model(lines@).push(models(before)).update(g.len() - 1, models(before).push(token@))
                        =~= lines_model(lines@).push(models(current@)));
                } else {
                    assert(lines_model(lines@) =~= Seq::<Seq<TokenModel>>::empty());
                    assert(models(current@) =~= seq![token@]);
                    assert(g =~= Seq::<Seq<TokenModel>>::empty());
                    assert(g.push(seq![token@]) =~= lines_model(lines@).push(models(current@)));
                }
            }
        }
        i = i + 1;
    }
    proof {
        assert(ws.subrange(0, ws.len() as int) =~= ws);
    }
    if current.len() > 0 {
        lines.push(current);
        proof {
            assert(lines_model(lines@) =~= lines_model(lines@.drop_last()).push(models(lines@.last()@)));
        }
    } else {
        proof {
            assert(lines_model(lines@) =~= Seq::<Seq<TokenModel>>::empty());
        }
    }
    Ok(lines)
}

proof fn lemma_tokens_error_stays(s: Seq<char>, ws: Seq<WordSpan>, k: int, j: int)
    requires
        0 <= k <= j <= ws.len(),
        tokens_of(s, ws.subrange(0, k)) is Err,
    ensures
        tokens_of(s, ws.subrange(0, j)) == tokens_of(s, ws.subrange(0, k)),
    decreases j - k,
{
    if k < j {
        lemma_tokens_error_stays(s, ws, k, j - 1);
        assert(ws.subrange(0, j).drop_last() =~= ws.subrange(0, j - 1));
    }
}

} // verus!
