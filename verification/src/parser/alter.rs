//! ALTER statements with their own small grammars (TYPE, TRIGGER, EXTENSION), the
//! index-maintenance clauses of partition operations, and reading the rest of a
//! statement back as text.
use vstd::prelude::*;
use crate::ast::{AlterCompositeTypeStatement, AlterExtensionStatement, AlterTriggerStatement, AlterTypeAction};
use crate::error::ParserError;
use crate::hint_validator::{trim, trim_chars};
use crate::parser::create::word_at;
use crate::parser::ddl::{agrees, has_if_exists, if_exists_end, if_not_exists_end, kw_at, lemma_object_name_bounds};
use crate::parser::expr::{data_type_at, format_data_type, format_type, opt_text, TypeView};
use crate::parser::{ident_text, ident_word_at, object_name_at, strings_view, tok_at, Outcome, Parser};
use crate::text::{chars_of, decimal, push_decimal, push_signed, signed_decimal, string_from_chars};
use crate::token::{keyword_text, Keyword, Token};

verus! {

// ────────────────────────────────────────────────────────────────
// Tokens back to text
// ────────────────────────────────────────────────────────────────

/// How a token is written in SQL text.
pub open spec fn token_sql(t: Token) -> Seq<char> {
    match t {
        Token::Keyword(k) => keyword_text(k),
        Token::Ident(s) => s@,
        Token::QuotedIdent(s) => seq!['"'] + s@ + seq!['"'],
        Token::SetIdent(s) => s@,
        Token::StringLiteral(s) => seq!['\''] + s@ + seq!['\''],
        Token::EscapeString(s) => seq!['E', '\''] + s@ + seq!['\''],
        Token::BitString(s) => seq!['B', '\''] + s@ + seq!['\''],
        Token::HexString(s) => seq!['X', '\''] + s@ + seq!['\''],
        Token::NationalString(s) => seq!['N', '\''] + s@ + seq!['\''],
        Token::DollarString { tag, body } => seq!['$'] + tag@ + seq!['$'] + body@ + seq!['$'] + tag@ + seq!['$'],
        Token::Integer(n) => signed_decimal(n as int),
        Token::Float(s) => s@,
        Token::Param(n) => seq!['$'] + decimal(n as nat),
        Token::Op(s) => s@,
        Token::LParen => seq!['('],
        Token::RParen => seq![')'],
        Token::LBracket => seq!['['],
        Token::RBracket => seq![']'],
        Token::Comma => seq![','],
        Token::Semicolon => seq![';'],
        Token::Dot => seq!['.'],
        Token::Colon => seq![':'],
        Token::Eq => seq!['='],
        Token::Lt => seq!['<'],
        Token::Gt => seq!['>'],
        Token::Plus => seq!['+'],
        Token::Minus => seq!['-'],
        Token::Star => seq!['*'],
        Token::Slash => seq!['/'],
        Token::Percent => seq!['%'],
        Token::Caret => seq!['^'],
        Token::At => seq!['@'],
        Token::Typecast => seq![':', ':'],
        Token::Eof => seq![],
    }
}

/// Whether the token at `i` ends a statement (`;` or the end).
pub open spec fn ends_statement(toks: Seq<Token>, i: int) -> bool {
    tok_at(toks, i) is Eof || tok_at(toks, i) is Semicolon
}

/// The tokens from `i` to the end of the statement written out after `acc`, one space
/// between the pieces (none after an empty start).
pub open spec fn rest_text(toks: Seq<Token>, i: int, acc: Seq<char>) -> Seq<char>
    decreases toks.len() - i,
{
    if ends_statement(toks, i) || i < 0 || i >= toks.len() {
        acc
    } else {
        rest_text(toks, i + 1, (if acc.len() == 0 { acc } else { acc.push(' ') }) + token_sql(toks[i]))
    }
}

/// Where the statement that continues at `i` ends.
pub open spec fn rest_end(toks: Seq<Token>, i: int) -> int
    decreases toks.len() - i,
{
    if ends_statement(toks, i) || i < 0 || i >= toks.len() {
        i
    } else {
        rest_end(toks, i + 1)
    }
}

impl Parser {
    /// The current token written as SQL text.
    pub fn token_to_string(&self) -> (s: String)
        requires
            self.wf(),
        ensures
            s@ == token_sql(self.current()),
    {
        let mut s = String::new();
        match self.peek() {
            Token::Keyword(k) => s.append(k.as_str()),
            Token::Ident(x) => s.append(x.as_str()),
            Token::QuotedIdent(x) => {
                s.push('"');
                s.append(x.as_str());
                s.push('"');
            },
            Token::SetIdent(x) => s.append(x.as_str()),
            Token::StringLiteral(x) => {
                s.push('\'');
                s.append(x.as_str());
                s.push('\'');
            },
            Token::EscapeString(x) => {
                s.push('E');
                s.push('\'');
                s.append(x.as_str());
                s.push('\'');
            },
            Token::BitString(x) => {
                s.push('B');
                s.push('\'');
                s.append(x.as_str());
                s.push('\'');
            },
            Token::HexString(x) => {
                s.push('X');
                s.push('\'');
                s.append(x.as_str());
                s.push('\'');
            },
            Token::NationalString(x) => {
                s.push('N');
                s.push('\'');
                s.append(x.as_str());
                s.push('\'');
            },
            Token::DollarString { tag, body } => {
                s.push('$');
                s.append(tag.as_str());
                s.push('$');
                s.append(body.as_str());
                s.push('$');
                s.append(tag.as_str());
                s.push('$');
            },
            Token::Integer(n) => push_signed(&mut s, *n),
            Token::Float(x) => s.append(x.as_str()),
            Token::Param(n) => {
                s.push('$');
                push_decimal(&mut s, *n as u64);
            },
            Token::Op(x) => s.append(x.as_str()),
            Token::LParen => s.push('('),
            Token::RParen => s.push(')'),
            Token::LBracket => s.push('['),
            Token::RBracket => s.push(']'),
            Token::Comma => s.push(','),
            Token::Semicolon => s.push(';'),
            Token::Dot => s.push('.'),
            Token::Colon => s.push(':'),
            Token::Eq => s.push('='),
            Token::Lt => s.push('<'),
            Token::Gt => s.push('>'),
            Token::Plus => s.push('+'),
            Token::Minus => s.push('-'),
            Token::Star => s.push('*'),
            Token::Slash => s.push('/'),
            Token::Percent => s.push('%'),
            Token::Caret => s.push('^'),
            Token::At => s.push('@'),
            Token::Typecast => {
                s.push(':');
                s.push(':');
            },
            Token::Eof => {},
        }
        proof {
            assert(s@ =~= token_sql(self.current()));
        }
        s
    }

    /// The rest of the statement (up to `;` or the end) as text: the tokens written
    /// out with single spaces between them, trimmed.
    pub fn collect_rest_until_semicolon(&mut self) -> (s: String)
        requires
            old(self).wf(),
        ensures
            final(self).wf(),
            s@ == trim(rest_text(old(self).toks(), old(self).position(), seq![])),
            old(self).moved_to(&*final(self), rest_end(old(self).toks(), old(self).position())),
    {
        let mut collected = String::new();
        loop
            invariant
                self.wf(),
                old(self).moved_to(&*self, self.position()),
                rest_text(old(self).toks(), old(self).position(), seq![]) == rest_text(self.toks(), self.position(), collected@),
                rest_end(old(self).toks(), old(self).position()) == rest_end(self.toks(), self.position()),
            ensures
                ends_statement(self.toks(), self.position()),
            decreases self.toks().len() - self.position(),
        {
            let stop = match self.peek() {
                Token::Eof | Token::Semicolon => true,
                _ => false,
            };
            if stop {
                break;
            }
            if collected.unicode_len() > 0 {
                collected.push(' ');
            }
            let piece = self.token_to_string();
            collected.append(piece.as_str());
            self.advance();
        }
        let chars = chars_of(collected.as_str());
        string_from_chars(&trim_chars(&chars))
    }
}

// ────────────────────────────────────────────────────────────────
// ALTER TRIGGER / ALTER EXTENSION
// ────────────────────────────────────────────────────────────────

/// ALTER TRIGGER's parts: name, table, new name, enable.
pub type TriggerParts = (Seq<char>, Option<Seq<Seq<char>>>, Option<Seq<char>>, Option<bool>);

pub open spec fn trigger_parts(t: AlterTriggerStatement) -> TriggerParts {
    (
        t.name@,
        match t.table {
            Some(n) => Some(strings_view(n@)),
            None => None,
        },
        opt_text(t.new_name),
        t.enable,
    )
}

/// `TRIGGER name {ENABLE | DISABLE | ON table RENAME TO new_name}` at `i`.
pub open spec fn alter_trigger_at(toks: Seq<Token>, i: int) -> Outcome<TriggerParts> {
    if !kw_at(toks, i, Keyword::TRIGGER) {
        Err((i, "TRIGGER"@))
    } else {
        match ident_text(tok_at(toks, i + 1)) {
            None => Err((i + 1, "identifier"@)),
            Some(name) => {
                let j = i + 2;
                if kw_at(toks, j, Keyword::ENABLE_P) {
                    Ok(((name, None, None, Some(true)), j + 1))
                } else if kw_at(toks, j, Keyword::DISABLE_P) {
                    Ok(((name, None, None, Some(false)), j + 1))
                } else if !kw_at(toks, j, Keyword::ON) {
                    Err((j, "ON"@))
                } else {
                    match object_name_at(toks, j + 1) {
                        Err(e) => Err(e),
                        Ok((table, k)) => if !kw_at(toks, k, Keyword::RENAME) {
                            Err((k, "RENAME"@))
                        } else if !kw_at(toks, k + 1, Keyword::TO) {
                            Err((k + 1, "TO"@))
                        } else {
                            match ident_text(tok_at(toks, k + 2)) {
                                None => Err((k + 2, "identifier"@)),
                                Some(new_name) => Ok(((name, Some(table), Some(new_name), None), k + 3)),
                            }
                        },
                    }
                }
            },
        }
    }
}

/// `EXTENSION name action...` at `i`: the action is the rest of the statement as text.
pub open spec fn alter_extension_at(toks: Seq<Token>, i: int) -> Outcome<(Seq<char>, Seq<char>)> {
    if !kw_at(toks, i, Keyword::EXTENSION) {
        Err((i, "EXTENSION"@))
    } else {
        match ident_text(tok_at(toks, i + 1)) {
            None => Err((i + 1, "identifier"@)),
            Some(name) => Ok(((name, trim(rest_text(toks, i + 2, seq![]))), rest_end(toks, i + 2))),
        }
    }
}

impl Parser {
    /// `TRIGGER name ENABLE`, `TRIGGER name DISABLE`, or `TRIGGER name ON table RENAME TO new`.
    pub fn parse_alter_trigger(&mut self) -> (r: Result<AlterTriggerStatement, ParserError>)
        requires
            old(self).wf(),
        ensures
            final(self).wf(),
            agrees(&*old(self), &*final(self), r, alter_trigger_at(old(self).toks(), old(self).position()),
                |t: AlterTriggerStatement| trigger_parts(t)),
    {
        match self.expect_keyword(Keyword::TRIGGER) {
            Ok(()) => {},
            Err(e) => return Err(e),
        }
        let name = match self.parse_identifier() {
            Ok(n) => n,
            Err(e) => return Err(e),
        };
        if self.match_keyword(Keyword::ENABLE_P) {
            self.advance();
            return Ok(AlterTriggerStatement { name, table: None, new_name: None, enable: Some(true) });
        }
        if self.match_keyword(Keyword::DISABLE_P) {
            self.advance();
            return Ok(AlterTriggerStatement { name, table: None, new_name: None, enable: Some(false) });
        }
        match self.expect_keyword(Keyword::ON) {
            Ok(()) => {},
            Err(e) => return Err(e),
        }
        let table = match self.parse_object_name() {
            Ok(t) => t,
            Err(e) => return Err(e),
        };
        match self.expect_keyword(Keyword::RENAME) {
            Ok(()) => {},
            Err(e) => return Err(e),
        }
        match self.expect_keyword(Keyword::TO) {
            Ok(()) => {},
            Err(e) => return Err(e),
        }
        let new_name = match self.parse_identifier() {
            Ok(n) => n,
            Err(e) => return Err(e),
        };
        Ok(AlterTriggerStatement { name, table: Some(table), new_name: Some(new_name), enable: None })
    }

    /// `EXTENSION name` followed by the action, kept as text.
    pub fn parse_alter_extension(&mut self) -> (r: Result<AlterExtensionStatement, ParserError>)
        requires
            old(self).wf(),
        ensures
            final(self).wf(),
            agrees(&*old(self), &*final(self), r, alter_extension_at(old(self).toks(), old(self).position()),
                |t: AlterExtensionStatement| (t.name@, t.action@)),
    {
        match self.expect_keyword(Keyword::EXTENSION) {
            Ok(()) => {},
            Err(e) => return Err(e),
        }
        let name = match self.parse_identifier() {
            Ok(n) => n,
            Err(e) => return Err(e),
        };
        let action = self.collect_rest_until_semicolon();
        Ok(AlterExtensionStatement { name, action })
    }
}

// ────────────────────────────────────────────────────────────────
// Index maintenance clauses of partition operations
// ────────────────────────────────────────────────────────────────

/// `DISTRIBUTED GLOBAL INDEX` at `i` (the word `DISTRIBUTED` written as an identifier),
/// with `what` the expected text when the word is missing.
pub open spec fn distributed_global_index_at(toks: Seq<Token>, i: int, what: Seq<char>) -> Outcome<()> {
    if !ident_word_at(toks, i, "DISTRIBUTED"@) {
        Err((i, what))
    } else if !kw_at(toks, i + 1, Keyword::GLOBAL) {
        Err((i + 1, "GLOBAL"@))
    } else if !kw_at(toks, i + 2, Keyword::INDEX) {
        Err((i + 2, "INDEX"@))
    } else {
        Ok(((), i + 3))
    }
}

/// `[UPDATE GLOBAL INDEX] [UPDATE DISTRIBUTED GLOBAL INDEX | NO UPDATE DISTRIBUTED GLOBAL INDEX]`
/// at `i`: whether global indexes are updated, and what was said of distributed ones.
pub open spec fn update_index_at(toks: Seq<Token>, i: int) -> Outcome<(bool, Option<bool>)> {
    let first: Outcome<bool> = if kw_at(toks, i, Keyword::UPDATE) && !ident_word_at(toks, i + 1, "DISTRIBUTED"@) {
        if !kw_at(toks, i + 1, Keyword::GLOBAL) {
            Err((i + 1, "GLOBAL"@))
        } else if !kw_at(toks, i + 2, Keyword::INDEX) {
            Err((i + 2, "INDEX"@))
        } else {
            Ok((true, i + 3))
        }
    } else {
        Ok((false, i))
    };
    match first {
        Err(e) => Err(e),
        Ok((global, j)) => if kw_at(toks, j, Keyword::UPDATE) {
            match distributed_global_index_at(toks, j + 1, "DISTRIBUTED after UPDATE"@) {
                Err(e) => Err(e),
                Ok((_, k)) => Ok(((global, Some(true)), k)),
            }
        } else if kw_at(toks, j, Keyword::NO) {
            if !kw_at(toks, j + 1, Keyword::UPDATE) {
                Err((j + 1, "UPDATE"@))
            } else {
                match distributed_global_index_at(toks, j + 2, "DISTRIBUTED after NO UPDATE"@) {
                    Err(e) => Err(e),
                    Ok((_, k)) => Ok(((global, Some(false)), k)),
                }
            }
        } else {
            Ok(((global, None), j))
        },
    }
}

impl Parser {
    fn parse_distributed_global_index(&mut self, what: &str) -> (r: Result<(), ParserError>)
        requires
            old(self).wf(),
        ensures
            final(self).wf(),
            agrees(&*old(self), &*final(self), r, distributed_global_index_at(old(self).toks(), old(self).position(), what@),
                |u: ()| u),
    {
        if !self.match_ident_str("DISTRIBUTED") {
            return Err(self.unexpected(what));
        }
        self.advance();
        match self.expect_keyword(Keyword::GLOBAL) {
            Ok(()) => {},
            Err(e) => return Err(e),
        }
        self.expect_keyword(Keyword::INDEX)
    }

    /// The index-maintenance clauses after a partition operation.
    pub fn parse_update_index_clauses(&mut self) -> (r: Result<(bool, Option<bool>), ParserError>)
        requires
            old(self).wf(),
        ensures
            final(self).wf(),
            agrees(&*old(self), &*final(self), r, update_index_at(old(self).toks(), old(self).position()),
                |v: (bool, Option<bool>)| v),
    {
        let mut update_global_index = false;
        if self.match_keyword(Keyword::UPDATE) {
            let next_is_distributed = self.match_ident_str_at(1, "DISTRIBUTED");
            if !next_is_distributed {
                self.advance();
                match self.expect_keyword(Keyword::GLOBAL) {
                    Ok(()) => {},
                    Err(e) => return Err(e),
                }
                match self.expect_keyword(Keyword::INDEX) {
                    Ok(()) => {},
                    Err(e) => return Err(e),
                }
                update_global_index = true;
            }
        }
        let update_distributed_global_index: Option<bool> = if self.match_keyword(Keyword::UPDATE) {
            self.advance();
            match self.parse_distributed_global_index("DISTRIBUTED after UPDATE") {
                Ok(()) => Some(true),
                Err(e) => return Err(e),
            }
        } else if self.match_keyword(Keyword::NO) {
            self.advance();
            match self.expect_keyword(Keyword::UPDATE) {
                Ok(()) => {},
                Err(e) => return Err(e),
            }
            match self.parse_distributed_global_index("DISTRIBUTED after NO UPDATE") {
                Ok(()) => Some(false),
                Err(e) => return Err(e),
            }
        } else {
            None
        };
        Ok((update_global_index, update_distributed_global_index))
    }
}

// ────────────────────────────────────────────────────────────────
// ALTER TYPE
// ────────────────────────────────────────────────────────────────

/// An ALTER TYPE action as the contracts see it (the text of an added attribute's
/// type is stated separately).
pub enum TypeActionView {
    AddAttribute { name: Seq<char>, cascade: bool },
    AddEnumValue { if_not_exists: bool, value: Seq<char>, before: Option<Seq<char>>, after: Option<Seq<char>> },
    DropAttribute { name: Seq<char>, if_exists: bool, cascade: bool },
    RenameAttribute { old_name: Seq<char>, new_name: Seq<char>, cascade: bool },
    RenameEnumValue { old_value: Seq<char>, new_value: Seq<char> },
    RenameTo(Seq<char>),
    SetSchema(Seq<char>),
    OwnerTo(Seq<char>),
}

pub open spec fn type_action_view(a: AlterTypeAction) -> TypeActionView {
    match a {
        AlterTypeAction::AddAttribute { name, cascade, .. } => TypeActionView::AddAttribute { name: name@, cascade },
        AlterTypeAction::AddEnumValue { if_not_exists, value, before, after } => TypeActionView::AddEnumValue {
            if_not_exists,
            value: value@,
            before: opt_text(before),
            after: opt_text(after),
        },
        AlterTypeAction::DropAttribute { name, if_exists, cascade } => TypeActionView::DropAttribute {
            name: name@,
            if_exists,
            cascade,
        },
        AlterTypeAction::RenameAttribute { old_name, new_name, cascade } => TypeActionView::RenameAttribute {
            old_name: old_name@,
            new_name: new_name@,
            cascade,
        },
        AlterTypeAction::RenameEnumValue { old_value, new_value } => TypeActionView::RenameEnumValue {
            old_value: old_value@,
            new_value: new_value@,
        },
        AlterTypeAction::RenameTo(n) => TypeActionView::RenameTo(n@),
        AlterTypeAction::SetSchema(n) => TypeActionView::SetSchema(n@),
        AlterTypeAction::OwnerTo(n) => TypeActionView::OwnerTo(n@),
    }
}

/// A string literal at `i`.
pub open spec fn string_at(toks: Seq<Token>, i: int) -> Outcome<Seq<char>> {
    match tok_at(toks, i) {
        Token::StringLiteral(s) => Ok((s@, i + 1)),
        _ => Err((i, "string literal"@)),
    }
}

/// The identifier at `i`.
pub open spec fn name_at(toks: Seq<Token>, i: int) -> Outcome<Seq<char>> {
    match ident_text(tok_at(toks, i)) {
        Some(t) => Ok((t, i + 1)),
        None => Err((i, "identifier"@)),
    }
}

/// The action of ALTER TYPE at `j`, for every action but ADD ATTRIBUTE (`None` there,
/// since that action reads a data type).
pub open spec fn type_action_at(toks: Seq<Token>, j: int) -> Option<Outcome<TypeActionView>> {
    if ident_word_at(toks, j, "ADD"@) {
        if ident_word_at(toks, j + 1, "ATTRIBUTE"@) {
            None
        } else if ident_word_at(toks, j + 1, "VALUE"@) {
            let k = j + 2;
            let ine = kw_at(toks, k, Keyword::IF_P);
            let k2 = if_not_exists_end(toks, k);
            Some(match string_at(toks, k2) {
                Err(e) => Err(e),
                Ok((value, m)) => if word_at(toks, m, Keyword::BEFORE, "BEFORE"@) {
                    match string_at(toks, m + 1) {
                        Err(e) => Err(e),
                        Ok((b, n)) => Ok((TypeActionView::AddEnumValue { if_not_exists: ine, value, before: Some(b), after: None }, n)),
                    }
                } else if word_at(toks, m, Keyword::AFTER, "AFTER"@) {
                    match string_at(toks, m + 1) {
                        Err(e) => Err(e),
                        Ok((a, n)) => Ok((TypeActionView::AddEnumValue { if_not_exists: ine, value, before: None, after: Some(a) }, n)),
                    }
                } else {
                    Ok((TypeActionView::AddEnumValue { if_not_exists: ine, value, before: None, after: None }, m))
                },
            })
        } else {
            Some(Err((j + 1, "ATTRIBUTE or VALUE"@)))
        }
    } else if word_at(toks, j, Keyword::DROP, "DROP"@) {
        Some(if word_at(toks, j + 1, Keyword::ATTRIBUTE, "ATTRIBUTE"@) {
            let k = j + 2;
            let if_exists = has_if_exists(toks, k);
            match name_at(toks, if_exists_end(toks, k)) {
                Err(e) => Err(e),
                Ok((name, m)) => {
                    let cascade = kw_at(toks, m, Keyword::CASCADE);
                    Ok((TypeActionView::DropAttribute { name, if_exists, cascade }, if cascade { m + 1 } else { m }))
                },
            }
        } else {
            Err((j + 1, "ATTRIBUTE"@))
        })
    } else if word_at(toks, j, Keyword::RENAME, "RENAME"@) {
        Some(if word_at(toks, j + 1, Keyword::ATTRIBUTE, "ATTRIBUTE"@) {
            match name_at(toks, j + 2) {
                Err(e) => Err(e),
                Ok((old_name, k)) => if !kw_at(toks, k, Keyword::TO) {
                    Err((k, "TO"@))
                } else {
                    match name_at(toks, k + 1) {
                        Err(e) => Err(e),
                        Ok((new_name, m)) => {
                            let cascade = kw_at(toks, m, Keyword::CASCADE);
                            Ok((TypeActionView::RenameAttribute { old_name, new_name, cascade }, if cascade { m + 1 } else { m }))
                        },
                    }
                },
            }
        } else if ident_word_at(toks, j + 1, "VALUE"@) {
            match string_at(toks, j + 2) {
                Err(e) => Err(e),
                Ok((old_value, k)) => if !kw_at(toks, k, Keyword::TO) {
                    Err((k, "TO"@))
                } else {
                    match string_at(toks, k + 1) {
                        Err(e) => Err(e),
                        Ok((new_value, m)) => Ok((TypeActionView::RenameEnumValue { old_value, new_value }, m)),
                    }
                },
            }
        } else if !kw_at(toks, j + 1, Keyword::TO) {
            Err((j + 1, "TO"@))
        } else {
            match name_at(toks, j + 2) {
                Err(e) => Err(e),
                Ok((n, m)) => Ok((TypeActionView::RenameTo(n), m)),
            }
        })
    } else if kw_at(toks, j, Keyword::SET) {
        Some(if kw_at(toks, j + 1, Keyword::SCHEMA) {
            match name_at(toks, j + 2) {
                Err(e) => Err(e),
                Ok((n, m)) => Ok((TypeActionView::SetSchema(n), m)),
            }
        } else {
            Err((j + 1, "SCHEMA"@))
        })
    } else if word_at(toks, j, Keyword::OWNER, "OWNER"@) {
        Some(if !kw_at(toks, j + 1, Keyword::TO) {
            Err((j + 1, "TO"@))
        } else {
            match name_at(toks, j + 2) {
                Err(e) => Err(e),
                Ok((n, m)) => Ok((TypeActionView::OwnerTo(n), m)),
            }
        })
    } else {
        Some(Err((j, "ADD, DROP, RENAME, SET, or OWNER"@)))
    }
}

/// `ADD ATTRIBUTE name type [CASCADE]` at `j`: the attribute's name, its type and the
/// flag; `None` where the type is not stated by `data_type_at`.
pub open spec fn add_attribute_at(toks: Seq<Token>, j: int) -> Option<Outcome<(Seq<char>, TypeView, bool)>> {
    match ident_text(tok_at(toks, j + 2)) {
        None => Some(Err((j + 2, "identifier"@))),
        Some(n) => match data_type_at(toks, j + 3) {
            None => None,
            Some(Err(e)) => Some(Err(e)),
            Some(Ok((tv, p))) => {
                let c = kw_at(toks, p, Keyword::CASCADE);
                Some(Ok(((n, tv, c), if c { p + 1 } else { p })))
            },
        },
    }
}

/// `a` is the added attribute that `v` describes: its name, its flag, and the text of its
/// type where `format_type` gives that text.
pub open spec fn add_attribute_matches(a: AlterTypeAction, v: (Seq<char>, TypeView, bool)) -> bool {
    &&& a is AddAttribute
    &&& a->AddAttribute_name@ == v.0
    &&& a->AddAttribute_cascade == v.2
    &&& format_type(v.1) matches Some(text) ==> a->AddAttribute_data_type@ == text
}

impl Parser {
    /// `TYPE name action`: `ADD ATTRIBUTE name type [CASCADE]`,
    /// `ADD VALUE [IF NOT EXISTS] 'v' [BEFORE|AFTER 'w']`, `DROP ATTRIBUTE [IF EXISTS] name
    /// [CASCADE]`, `RENAME ATTRIBUTE a TO b [CASCADE]`, `RENAME VALUE 'v' TO 'w'`,
    /// `RENAME TO name`, `SET SCHEMA s`, `OWNER TO role`. An added attribute's type is
    /// kept as its text (see `format_data_type`).
    pub fn parse_alter_type(&mut self) -> (r: Result<AlterCompositeTypeStatement, ParserError>)
        requires
            old(self).wf(),
        ensures
            old(self).steps(&*final(self)),
            !kw_at(old(self).toks(), old(self).position(), Keyword::TYPE_P) ==> r is Err
                && old(self).moved_to(&*final(self), old(self).position())
                && old(self).reports(r->Err_0, old(self).position(), "TYPE"@),
            kw_at(old(self).toks(), old(self).position(), Keyword::TYPE_P) ==> match object_name_at(old(self).toks(), old(self).position() + 1) {
                Err((p, e)) => r is Err && old(self).moved_to(&*final(self), p) && old(self).reports(r->Err_0, p, e),
                Ok((name, j)) => match type_action_at(old(self).toks(), j) {
                    Some(o) => agrees(&*old(self), &*final(self), r, o,
                        |t: AlterCompositeTypeStatement| type_action_view(t.action))
                        && (r is Ok ==> strings_view(r->Ok_0.name@) == name),
                    None => {
                        &&& r is Ok ==> strings_view(r->Ok_0.name@) == name && (r->Ok_0.action matches AlterTypeAction::AddAttribute { name: a, .. }
                            && Some(a@) == ident_text(tok_at(old(self).toks(), j + 2)))
                        &&& match add_attribute_at(old(self).toks(), j) {
                            Some(Ok((v, q))) => r is Ok && add_attribute_matches(r->Ok_0.action, v) && old(self).moved_to(&*final(self), q),
                            Some(Err((q, e))) => r is Err && old(self).moved_to(&*final(self), q) && old(self).reports(r->Err_0, q, e),
                            None => true,
                        }
                    },
                },
            },
    {
        match self.expect_keyword(Keyword::TYPE_P) {
            Ok(()) => {},
            Err(e) => return Err(e),
        }
        proof {
            lemma_object_name_bounds(self.toks(), self.position());
        }
        let name = match self.parse_object_name() {
            Ok(n) => n,
            Err(e) => return Err(e),
        };
        let action = match self.parse_alter_type_action() {
            Ok(a) => a,
            Err(e) => return Err(e),
        };
        Ok(AlterCompositeTypeStatement { name, action })
    }

    fn parse_string_value(&mut self) -> (r: Result<String, ParserError>)
        requires
            old(self).wf(),
        ensures
            final(self).wf(),
            agrees(&*old(self), &*final(self), r, string_at(old(self).toks(), old(self).position()), |s: String| s@),
    {
        self.parse_string_literal()
    }

    fn parse_alter_type_action(&mut self) -> (r: Result<AlterTypeAction, ParserError>)
        requires
            old(self).wf(),
        ensures
            old(self).steps(&*final(self)),
            match type_action_at(old(self).toks(), old(self).position()) {
                Some(o) => agrees(&*old(self), &*final(self), r, o, |a: AlterTypeAction| type_action_view(a)),
                None => {
                    &&& r is Ok ==> (r->Ok_0 matches AlterTypeAction::AddAttribute { name: a, .. }
                        && Some(a@) == ident_text(tok_at(old(self).toks(), old(self).position() + 2)))
                    &&& match add_attribute_at(old(self).toks(), old(self).position()) {
                        Some(Ok((v, q))) => r is Ok && add_attribute_matches(r->Ok_0, v) && old(self).moved_to(&*final(self), q),
                        Some(Err((q, e))) => r is Err && old(self).moved_to(&*final(self), q) && old(self).reports(r->Err_0, q, e),
                        None => true,
                    }
                },
            },
    {
        if self.match_ident_str("ADD") {
            self.advance();
            if self.match_ident_str("ATTRIBUTE") {
                self.advance();
                let attr_name = match self.parse_identifier() {
                    Ok(n) => n,
                    Err(e) => return Err(e),
                };
                let dt = match self.parse_data_type() {
                    Ok(t) => t,
                    Err(e) => return Err(e),
                };
                let data_type = format_data_type(&dt);
                let cascade = self.try_consume_keyword(Keyword::CASCADE);
                return Ok(AlterTypeAction::AddAttribute { name: attr_name, data_type, cascade });
            } else if self.match_ident_str("VALUE") {
                self.advance();
                let if_not_exists = self.match_keyword(Keyword::IF_P);
                let _ = self.parse_if_not_exists();
                let value = match self.parse_string_value() {
                    Ok(v) => v,
                    Err(e) => return Err(e),
                };
                let mut before: Option<String> = None;
                let mut after: Option<String> = None;
                if self.match_word(Keyword::BEFORE, "BEFORE") {
                    self.advance();
                    match self.parse_string_value() {
                        Ok(v) => before = Some(v),
                        Err(e) => return Err(e),
                    }
                } else if self.match_word(Keyword::AFTER, "AFTER") {
                    self.advance();
                    match self.parse_string_value() {
                        Ok(v) => after = Some(v),
                        Err(e) => return Err(e),
                    }
                }
                return Ok(AlterTypeAction::AddEnumValue { if_not_exists, value, before, after });
            } else {
                return Err(self.unexpected("ATTRIBUTE or VALUE"));
            }
        }
        if self.match_word(Keyword::DROP, "DROP") {
            self.advance();
            if self.match_word(Keyword::ATTRIBUTE, "ATTRIBUTE") {
                self.advance();
                let if_exists = self.parse_if_exists();
                let attr_name = match self.parse_identifier() {
                    Ok(n) => n,
                    Err(e) => return Err(e),
                };
                let cascade = self.try_consume_keyword(Keyword::CASCADE);
                return Ok(AlterTypeAction::DropAttribute { name: attr_name, if_exists, cascade });
            }
            return Err(self.unexpected("ATTRIBUTE"));
        }
        if self.match_word(Keyword::RENAME, "RENAME") {
            self.advance();
            if self.match_word(Keyword::ATTRIBUTE, "ATTRIBUTE") {
                self.advance();
                let old_name = match self.parse_identifier() {
                    Ok(n) => n,
                    Err(e) => return Err(e),
                };
                match self.expect_keyword(Keyword::TO) {
                    Ok(()) => {},
                    Err(e) => return Err(e),
                }
                let new_name = match self.parse_identifier() {
                    Ok(n) => n,
                    Err(e) => return Err(e),
                };
                let cascade = self.try_consume_keyword(Keyword::CASCADE);
                return Ok(AlterTypeAction::RenameAttribute { old_name, new_name, cascade });
            } else if self.match_ident_str("VALUE") {
                self.advance();
                let old_value = match self.parse_string_value() {
                    Ok(v) => v,
                    Err(e) => return Err(e),
                };
                match self.expect_keyword(Keyword::TO) {
                    Ok(()) => {},
                    Err(e) => return Err(e),
                }
                let new_value = match self.parse_string_value() {
                    Ok(v) => v,
                    Err(e) => return Err(e),
                };
                return Ok(AlterTypeAction::RenameEnumValue { old_value, new_value });
            }
            match self.expect_keyword(Keyword::TO) {
                Ok(()) => {},
                Err(e) => return Err(e),
            }
            return match self.parse_identifier() {
                Ok(n) => Ok(AlterTypeAction::RenameTo(n)),
                Err(e) => Err(e),
            };
        }
        if self.match_keyword(Keyword::SET) {
            self.advance();
            if self.match_keyword(Keyword::SCHEMA) {
                self.advance();
                return match self.parse_identifier() {
                    Ok(n) => Ok(AlterTypeAction::SetSchema(n)),
                    Err(e) => Err(e),
                };
            }
            return Err(self.unexpected("SCHEMA"));
        }
        if self.match_word(Keyword::OWNER, "OWNER") {
            self.advance();
            match self.expect_keyword(Keyword::TO) {
                Ok(()) => {},
                Err(e) => return Err(e),
            }
            return match self.parse_identifier() {
                Ok(n) => Ok(AlterTypeAction::OwnerTo(n)),
                Err(e) => Err(e),
            };
        }
        Err(self.unexpected("ADD, DROP, RENAME, SET, or OWNER"))
    }
}

} // verus!
