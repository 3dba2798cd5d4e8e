//! The mathematical model of the scanner.
//!
//! Everything here is specification: given the input character sequence and a
//! cursor position, these functions say how far a whitespace run extends, how
//! many lines it crosses, and which token starts at the first non-whitespace
//! position.  The executable [`crate::lexer::Lexer`] is verified against this
//! model, token by token.

use vstd::prelude::*;

use crate::enums::arithmetic::Arithmetic;
use crate::enums::bitop::Bitop;
use crate::enums::cmp::Cmp;
use crate::enums::keyword::keyword_of_str;
use crate::enums::logicop::LogicOp;
use crate::enums::token_type::TokenType;

verus! {

/// The character under a cursor, with the end-of-input marker beyond the
/// input on either side.
pub open spec fn char_at(s: Seq<char>, p: int) -> char {
    if 0 <= p < s.len() {
        s[p]
    } else {
        '\0'
    }
}

/// Whitespace that is skipped without affecting the line count.
pub open spec fn is_space_char(c: char) -> bool {
    c == ' ' || c == '\t'
}

/// Whitespace that ends a source line.
pub open spec fn is_line_break(c: char) -> bool {
    c == '\n' || c == '\r'
}

/// Any whitespace the scanner skips between tokens.
pub open spec fn is_skippable(c: char) -> bool {
    is_space_char(c) || is_line_break(c)
}

/// A character that may start an identifier.
pub open spec fn is_letter_char(c: char) -> bool {
    ('a' <= c && c <= 'z') || ('A' <= c && c <= 'Z') || c == '_'
}

/// A decimal digit.
pub open spec fn is_digit_char(c: char) -> bool {
    '0' <= c && c <= '9'
}

/// A character that may continue an identifier.
pub open spec fn is_word_char(c: char) -> bool {
    is_letter_char(c) || is_digit_char(c)
}

/// The position of the first non-whitespace character at or after `p`.
pub open spec fn skip_ws_pos(s: Seq<char>, p: int) -> int
    decreases s.len() - p,
{
    if 0 <= p < s.len() && is_skippable(s[p]) {
        skip_ws_pos(s, p + 1)
    } else {
        p
    }
}

/// The line counter after skipping the whitespace run at `p`, starting from
/// line `l`: each line break among the skipped characters adds one.
pub open spec fn skip_ws_line(s: Seq<char>, p: int, l: int) -> int
    decreases s.len() - p,
{
    if 0 <= p < s.len() && is_skippable(s[p]) {
        skip_ws_line(s, p + 1, if is_line_break(s[p]) { l + 1 } else { l })
    } else {
        l
    }
}

/// The position just past the identifier run starting at `p`.
pub open spec fn word_end(s: Seq<char>, p: int) -> int
    decreases s.len() - p,
{
    if 0 <= p < s.len() && is_word_char(s[p]) {
        word_end(s, p + 1)
    } else {
        p
    }
}

/// The position just past the digit run starting at `p`.
pub open spec fn digits_end(s: Seq<char>, p: int) -> int
    decreases s.len() - p,
{
    if 0 <= p < s.len() && is_digit_char(s[p]) {
        digits_end(s, p + 1)
    } else {
        p
    }
}

/// One scanned token: its kind, its exact text, how many characters it
/// occupies, and the character offset recorded in the token.
pub ghost struct ScanTok {
    pub t: TokenType,
    pub value: Seq<char>,
    pub width: int,
    pub tok_pos: int,
}

/// The single-character arithmetic operators.
pub open spec fn is_arith_char(c: char) -> bool {
    c == '+' || c == '-' || c == '*' || c == '/' || c == '%'
}

/// The arithmetic variant of a single operator character.
pub open spec fn arith_single(c: char) -> Arithmetic {
    if c == '+' {
        Arithmetic::PLUS
    } else if c == '-' {
        Arithmetic::MINUS
    } else if c == '*' {
        Arithmetic::MUL
    } else if c == '/' {
        Arithmetic::DIV
    } else {
        Arithmetic::MOD
    }
}

/// The arithmetic variant of a doubled operator character, where one exists.
pub open spec fn arith_double(c: char) -> Option<Arithmetic> {
    if c == '+' {
        Some(Arithmetic::INC)
    } else if c == '-' {
        Some(Arithmetic::DEC)
    } else if c == '*' {
        Some(Arithmetic::POW)
    } else if c == '/' {
        Some(Arithmetic::FDIV)
    } else {
        None
    }
}

/// The single-character bitwise operators.
pub open spec fn is_bit_char(c: char) -> bool {
    c == '&' || c == '|' || c == '~' || c == '^'
}

/// The bitwise variant of a single operator character.
pub open spec fn bit_single(c: char) -> Bitop {
    if c == '&' {
        Bitop::AND
    } else if c == '|' {
        Bitop::OR
    } else if c == '~' {
        Bitop::NOT
    } else {
        Bitop::XOR
    }
}

/// The logical variant of a doubled bitwise operator character, where one
/// exists.
pub open spec fn logic_double(c: char) -> Option<LogicOp> {
    if c == '&' {
        Some(LogicOp::AND)
    } else if c == '|' {
        Some(LogicOp::OR)
    } else {
        None
    }
}

/// The token that starts at position `p`, which must already be past any
/// whitespace.  Two-character operators are matched greedily: the doubled or
/// combined form wins whenever the next character completes a known pair,
/// and otherwise exactly one character is consumed.
pub open spec fn scan_tok(s: Seq<char>, p: int) -> ScanTok {
    let c = char_at(s, p);
    let d = char_at(s, p + 1);
    if c == '=' {
        if d == '=' {
            ScanTok { t: TokenType::CMP(Cmp::EQUAL), value: seq!['=', '='], width: 2, tok_pos: p }
        } else {
            ScanTok { t: TokenType::ASSIGN, value: seq!['='], width: 1, tok_pos: p }
        }
    } else if c == ';' {
        ScanTok { t: TokenType::SEMICOLON, value: seq![';'], width: 1, tok_pos: p }
    } else if c == ':' {
        if d == ':' {
            ScanTok { t: TokenType::SCOPE, value: seq![':', ':'], width: 2, tok_pos: p }
        } else {
            ScanTok { t: TokenType::COLON, value: seq![':'], width: 1, tok_pos: p }
        }
    } else if c == '(' {
        ScanTok { t: TokenType::LPAREN, value: seq!['('], width: 1, tok_pos: p }
    } else if c == ')' {
        ScanTok { t: TokenType::RPAREN, value: seq![')'], width: 1, tok_pos: p }
    } else if c == '.' {
        if d == '.' {
            if char_at(s, p + 2) == '=' {
                ScanTok { t: TokenType::IRANGE, value: seq!['.', '.', '='], width: 3, tok_pos: p }
            } else {
                ScanTok { t: TokenType::RANGE, value: seq!['.', '.'], width: 2, tok_pos: p }
            }
        } else {
            ScanTok { t: TokenType::DOT, value: seq!['.'], width: 1, tok_pos: p }
        }
    } else if c == ',' {
        ScanTok { t: TokenType::COMMA, value: seq![','], width: 1, tok_pos: p }
    } else if is_arith_char(c) {
        if d == c && arith_double(c) is Some {
            ScanTok {
                t: TokenType::ARITHMETIC(arith_double(c)->Some_0),
                value: seq![c, c],
                width: 2,
                tok_pos: p,
            }
        } else {
            ScanTok {
                t: TokenType::ARITHMETIC(arith_single(c)),
                value: seq![c],
                width: 1,
                tok_pos: p,
            }
        }
    } else if is_bit_char(c) {
        if d == c && logic_double(c) is Some {
            ScanTok {
                t: TokenType::LOGICOP(logic_double(c)->Some_0),
                value: seq![c, c],
                width: 2,
                tok_pos: p,
            }
        } else {
            ScanTok { t: TokenType::BITOP(bit_single(c)), value: seq![c], width: 1, tok_pos: p }
        }
    } else if c == '!' {
        if d == '=' {
            ScanTok { t: TokenType::CMP(Cmp::NEQUAL), value: seq!['!', '='], width: 2, tok_pos: p }
        } else {
            ScanTok { t: TokenType::LOGICOP(LogicOp::NOT), value: seq!['!'], width: 1, tok_pos: p }
        }
    } else if c == '{' {
        ScanTok { t: TokenType::LBRACE, value: seq!['{'], width: 1, tok_pos: p }
    } else if c == '}' {
        ScanTok { t: TokenType::RBRACE, value: seq!['}'], width: 1, tok_pos: p }
    } else if c == '<' {
        if d == '=' {
            ScanTok { t: TokenType::CMP(Cmp::LE), value: seq!['<', '='], width: 2, tok_pos: p }
        } else {
            ScanTok { t: TokenType::CMP(Cmp::LT), value: seq!['<'], width: 1, tok_pos: p }
        }
    } else if c == '>' {
        if d == '=' {
            ScanTok { t: TokenType::CMP(Cmp::GE), value: seq!['>', '='], width: 2, tok_pos: p }
        } else {
            ScanTok { t: TokenType::CMP(Cmp::GT), value: seq!['>'], width: 1, tok_pos: p }
        }
    } else if c == '"' {
        ScanTok { t: TokenType::DQUOTE, value: seq!['"'], width: 1, tok_pos: p }
    } else if c == '\'' {
        ScanTok { t: TokenType::QUOTE, value: seq!['\''], width: 1, tok_pos: p }
    } else if c == '`' {
        ScanTok { t: TokenType::BACKTICK, value: seq!['`'], width: 1, tok_pos: p }
    } else if c == '\0' {
        ScanTok { t: TokenType::EOF, value: seq!['\0'], width: 1, tok_pos: p }
    } else if is_letter_char(c) {
        let e = word_end(s, p);
        let lexeme = s.subrange(p, e);
        ScanTok {
            t: match keyword_of_str(lexeme) {
                Some(k) => TokenType::KEYWORD(k),
                None => TokenType::IDENT,
            },
            value: lexeme,
            width: e - p,
            tok_pos: p,
        }
    } else if is_digit_char(c) {
        let e = digits_end(s, p);
        ScanTok { t: TokenType::INT, value: s.subrange(p, e), width: e - p, tok_pos: e }
    } else {
        ScanTok { t: TokenType::ILLEGAL, value: seq![c], width: 1, tok_pos: p }
    }
}

/// The cursor position after consuming the token at `p`: the token's width
/// further on, saturating at the end of the input.
pub open spec fn scan_end(s: Seq<char>, p: int) -> int {
    if p + scan_tok(s, p).width <= s.len() {
        p + scan_tok(s, p).width
    } else {
        s.len() as int
    }
}

/// Skipping whitespace stays within the input and never moves backwards.
pub proof fn lemma_skip_ws_pos_bounds(s: Seq<char>, p: int)
    requires
        0 <= p <= s.len(),
    ensures
        p <= skip_ws_pos(s, p) <= s.len(),
        skip_ws_pos(s, p) < s.len() ==> !is_skippable(s[skip_ws_pos(s, p)]),
    decreases s.len() - p,
{
    if p < s.len() && is_skippable(s[p]) {
        lemma_skip_ws_pos_bounds(s, p + 1);
    }
}

/// The line counter never shrinks while skipping whitespace, and grows by at
/// most one per skipped character.
pub proof fn lemma_skip_ws_line_bounds(s: Seq<char>, p: int, l: int)
    requires
        0 <= p <= s.len(),
    ensures
        l <= skip_ws_line(s, p, l) <= l + (skip_ws_pos(s, p) - p),
    decreases s.len() - p,
{
    lemma_skip_ws_pos_bounds(s, p);
    if p < s.len() && is_skippable(s[p]) {
        lemma_skip_ws_line_bounds(s, p + 1, if is_line_break(s[p]) { l + 1 } else { l });
        lemma_skip_ws_pos_bounds(s, p + 1);
    }
}

/// An identifier run stays within the input and never moves backwards.
pub proof fn lemma_word_end_bounds(s: Seq<char>, p: int)
    requires
        0 <= p <= s.len(),
    ensures
        p <= word_end(s, p) <= s.len(),
        word_end(s, p) < s.len() ==> !is_word_char(s[word_end(s, p)]),
        0 <= p < s.len() && is_word_char(s[p]) ==> p < word_end(s, p),
    decreases s.len() - p,
{
    if p < s.len() && is_word_char(s[p]) {
        lemma_word_end_bounds(s, p + 1);
    }
}

/// A digit run stays within the input and never moves backwards.
pub proof fn lemma_digits_end_bounds(s: Seq<char>, p: int)
    requires
        0 <= p <= s.len(),
    ensures
        p <= digits_end(s, p) <= s.len(),
        digits_end(s, p) < s.len() ==> !is_digit_char(s[digits_end(s, p)]),
        0 <= p < s.len() && is_digit_char(s[p]) ==> p < digits_end(s, p),
    decreases s.len() - p,
{
    if p < s.len() && is_digit_char(s[p]) {
        lemma_digits_end_bounds(s, p + 1);
    }
}

/// Longest match: wherever the characters under the cursor form one of the
/// doubled or combined operator pairs, the scan yields one token of the
/// combined kind and consumes both characters — three for the inclusive
/// range — never two single-character tokens.
pub proof fn lemma_longest_match(s: Seq<char>, p: int)
    requires
        0 <= p,
    ensures
        ({
            let c = char_at(s, p);
            let d = char_at(s, p + 1);
            let st = scan_tok(s, p);
            &&& (c == '+' && d == '+') ==> st.t == TokenType::ARITHMETIC(Arithmetic::INC)
                && st.width == 2
            &&& (c == '-' && d == '-') ==> st.t == TokenType::ARITHMETIC(Arithmetic::DEC)
                && st.width == 2
            &&& (c == '*' && d == '*') ==> st.t == TokenType::ARITHMETIC(Arithmetic::POW)
                && st.width == 2
            &&& (c == '/' && d == '/') ==> st.t == TokenType::ARITHMETIC(Arithmetic::FDIV)
                && st.width == 2
            &&& (c == '&' && d == '&') ==> st.t == TokenType::LOGICOP(LogicOp::AND) && st.width
                == 2
            &&& (c == '|' && d == '|') ==> st.t == TokenType::LOGICOP(LogicOp::OR) && st.width == 2
            &&& (c == '=' && d == '=') ==> st.t == TokenType::CMP(Cmp::EQUAL) && st.width == 2
            &&& (c == '!' && d == '=') ==> st.t == TokenType::CMP(Cmp::NEQUAL) && st.width == 2
            &&& (c == '<' && d == '=') ==> st.t == TokenType::CMP(Cmp::LE) && st.width == 2
            &&& (c == '>' && d == '=') ==> st.t == TokenType::CMP(Cmp::GE) && st.width == 2
            &&& (c == ':' && d == ':') ==> st.t == TokenType::SCOPE && st.width == 2
            &&& (c == '.' && d == '.' && char_at(s, p + 2) != '=') ==> st.t == TokenType::RANGE
                && st.width == 2
            &&& (c == '.' && d == '.' && char_at(s, p + 2) == '=') ==> st.t == TokenType::IRANGE
                && st.width == 3
        }),
{
}

/// Fallback: a character from an operator class followed by anything that
/// does not complete a known pair yields exactly one single-character token,
/// and the cursor ends on the following character.
pub proof fn lemma_fallback(s: Seq<char>, p: int)
    requires
        0 <= p < s.len(),
    ensures
        ({
            let c = char_at(s, p);
            let d = char_at(s, p + 1);
            let st = scan_tok(s, p);
            &&& (c == '=' && d != '=') ==> st.t == TokenType::ASSIGN && st.width == 1
            &&& (c == ':' && d != ':') ==> st.t == TokenType::COLON && st.width == 1
            &&& (c == '.' && d != '.') ==> st.t == TokenType::DOT && st.width == 1
            &&& (is_arith_char(c) && !(d == c && arith_double(c) is Some)) ==> st.t
                == TokenType::ARITHMETIC(arith_single(c)) && st.width == 1
            &&& (is_bit_char(c) && !(d == c && logic_double(c) is Some)) ==> st.t
                == TokenType::BITOP(bit_single(c)) && st.width == 1
            &&& (c == '!' && d != '=') ==> st.t == TokenType::LOGICOP(LogicOp::NOT) && st.width
                == 1
            &&& (c == '<' && d != '=') ==> st.t == TokenType::CMP(Cmp::LT) && st.width == 1
            &&& (c == '>' && d != '=') ==> st.t == TokenType::CMP(Cmp::GT) && st.width == 1
            &&& st.width == 1 ==> scan_end(s, p) == p + 1
        }),
{
}

/// Keyword closure: an identifier run whose lexeme is in the keyword table
/// scans as that keyword, and any other identifier run scans as a plain
/// identifier; either way the token's text is the maximal run.
pub proof fn lemma_keyword_closure(s: Seq<char>, p: int)
    requires
        0 <= p <= s.len(),
        is_letter_char(char_at(s, p)),
    ensures
        ({
            let lexeme = s.subrange(p, word_end(s, p));
            &&& scan_tok(s, p).value == lexeme
            &&& scan_tok(s, p).t == (match keyword_of_str(lexeme) {
                Some(k) => TokenType::KEYWORD(k),
                None => TokenType::IDENT,
            })
        }),
{
}

/// End-of-file idempotence: with the cursor at the end of the input the scan
/// model yields the end-of-file kind and moves neither the cursor nor the
/// line counter, so every further scan returns the same token again.
pub proof fn lemma_eof_idempotent(s: Seq<char>, p: int, l: int)
    requires
        p == s.len(),
    ensures
        skip_ws_pos(s, p) == p,
        skip_ws_line(s, p, l) == l,
        scan_tok(s, p).t == TokenType::EOF,
        scan_tok(s, p).t != TokenType::ILLEGAL,
        scan_end(s, p) == p,
{
}

/// Every token is at least one character wide; scanning never leaves the
/// input, and it makes strict progress everywhere but at the very end.
pub proof fn lemma_scan_bounds(s: Seq<char>, p: int)
    requires
        0 <= p <= s.len(),
    ensures
        scan_tok(s, p).width >= 1,
        p <= scan_end(s, p) <= s.len(),
        p < s.len() ==> p < scan_end(s, p),
        p == s.len() ==> scan_end(s, p) == p && scan_tok(s, p).t == TokenType::EOF,
{
    let c = char_at(s, p);
    if is_letter_char(c) {
        lemma_word_end_bounds(s, p);
    } else if is_digit_char(c) {
        lemma_digits_end_bounds(s, p);
    }
}

} // verus!
