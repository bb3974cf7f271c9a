//! CREATE TYPE: enumerations, composite types, table types, range types, base types
//! with options, and shell types.
use vstd::prelude::*;
use crate::ast::{CreateTypeStatement, DataType, TypeAttribute, TypeKind};
use crate::error::ParserError;
use crate::parser::ddl::{agrees, kw_at, lemma_object_name_bounds};
use crate::parser::expr::{format_data_type, is_type_keyword, type_at, type_view, TypeView};
use crate::parser::options::{options_view, paren_options_at, OptionView};
use crate::parser::{ident_text, keyword_at, object_name_at, strings_view, tok_at, Outcome, Parser};
use crate::token::{Keyword, Token};

verus! {

/// A composite type's attribute list at `i` whose first attribute is `name` and a type
/// named by a keyword: the name, the type and where the type ends.
pub open spec fn keyword_attribute_at(toks: Seq<Token>, i: int) -> Option<(Seq<char>, Outcome<TypeView>)> {
    if tok_at(toks, i) is LParen && ident_text(tok_at(toks, i + 1)) is Some {
        match keyword_at(toks, i + 2) {
            Some(k) => if is_type_keyword(k) {
                Some((ident_text(tok_at(toks, i + 1))->0, type_at(toks, i + 2, k)))
            } else {
                None
            },
            None => None,
        }
    } else {
        None
    }
}

/// The list at `i` is `( name type )` with a keyword type, ending at `q`.
pub open spec fn single_keyword_attribute_at(toks: Seq<Token>, i: int) -> bool {
    match keyword_attribute_at(toks, i) {
        Some((_, Ok((_, q)))) => !(tok_at(toks, q) is Comma),
        _ => false,
    }
}

/// The kinds of type whose definition is read exactly, as plain values.
pub enum TypeKindView {
    Enum(Seq<Seq<char>>),
    Range(Seq<OptionView>),
    Base(Seq<OptionView>),
    Shell,
}

/// The view of a type kind; composite and table types, which read data types, have none.
pub open spec fn type_kind_view(k: TypeKind) -> Option<TypeKindView> {
    match k {
        TypeKind::Enum { labels } => Some(TypeKindView::Enum(strings_view(labels@))),
        TypeKind::Range { options } => Some(TypeKindView::Range(options_view(options@))),
        TypeKind::Base { options } => Some(TypeKindView::Base(options_view(options@))),
        TypeKind::Shell => Some(TypeKindView::Shell),
        _ => None,
    }
}

/// Enumeration labels from `m` on, after those in `acc`: string literals separated by
/// commas, up to and including the closing parenthesis.
pub open spec fn enum_labels_at(toks: Seq<Token>, m: int, acc: Seq<Seq<char>>) -> Outcome<Seq<Seq<char>>>
    decreases toks.len() - m,
{
    match tok_at(toks, m) {
        Token::StringLiteral(s) => if tok_at(toks, m + 1) is Comma {
            enum_labels_at(toks, m + 2, acc.push(s@))
        } else if tok_at(toks, m + 1) is RParen {
            Ok((acc.push(s@), m + 2))
        } else {
            Err((m + 1, ")"@))
        },
        _ => Err((m, "string literal"@)),
    }
}

proof fn lemma_enum_labels_bounds(toks: Seq<Token>, m: int, acc: Seq<Seq<char>>)
    ensures
        match enum_labels_at(toks, m, acc) {
            Ok((_, q)) => m < q,
            Err((q, _)) => m <= q,
        },
    decreases toks.len() - m,
{
    if let Token::StringLiteral(s) = tok_at(toks, m) {
        if tok_at(toks, m + 1) is Comma {
            lemma_enum_labels_bounds(toks, m + 2, acc.push(s@));
        }
    }
}

/// The definition after the type's name at `j`: `None` for composite and table types.
pub open spec fn type_kind_at(toks: Seq<Token>, j: int) -> Option<Outcome<TypeKindView>> {
    if kw_at(toks, j, Keyword::AS) || kw_at(toks, j, Keyword::IS) {
        let k = j + 1;
        if kw_at(toks, k, Keyword::ENUM_P) {
            Some(if !(tok_at(toks, k + 1) is LParen) {
                Err((k + 1, "("@))
            } else {
                match enum_labels_at(toks, k + 2, Seq::empty()) {
                    Err(e) => Err(e),
                    Ok((labels, m)) => Ok((TypeKindView::Enum(labels), m)),
                }
            })
        } else if tok_at(toks, k) is LParen || kw_at(toks, k, Keyword::TABLE) {
            None
        } else if kw_at(toks, k, Keyword::RANGE) {
            let (o, m) = paren_options_at(toks, k + 1);
            Some(Ok((TypeKindView::Range(o), m)))
        } else {
            Some(Err((k, "ENUM, TABLE OF, RANGE, or ("@)))
        }
    } else if tok_at(toks, j) is LParen {
        let (o, m) = paren_options_at(toks, j);
        Some(Ok((TypeKindView::Base(o), m)))
    } else {
        Some(Ok((TypeKindView::Shell, j)))
    }
}

/// CREATE TYPE at `i` (`TYPE name definition`): the name, and where the definition starts.
pub open spec fn create_type_head(toks: Seq<Token>, i: int) -> Outcome<Seq<Seq<char>>> {
    if !kw_at(toks, i, Keyword::TYPE_P) {
        Err((i, "TYPE"@))
    } else {
        object_name_at(toks, i + 1)
    }
}

impl Parser {
    fn parse_enum_labels(&mut self) -> (r: Result<Vec<String>, ParserError>)
        requires
            old(self).wf(),
        ensures
            final(self).wf(),
            agrees(&*old(self), &*final(self), r, enum_labels_at(old(self).toks(), old(self).position(), Seq::empty()),
                |v: Vec<String>| strings_view(v@)),
            old(self).position() <= final(self).position(),
    {
        proof { lemma_enum_labels_bounds(self.toks(), self.position(), Seq::empty()); }
        let mut labels: Vec<String> = Vec::new();
        assert(strings_view(labels@) =~= Seq::<Seq<char>>::empty());
        loop
            invariant_except_break
                enum_labels_at(old(self).toks(), old(self).position(), Seq::empty())
                    == enum_labels_at(self.toks(), self.position(), strings_view(labels@)),
            invariant
                self.wf(),
                old(self).moved_to(&*self, self.position()),
                old(self).position() <= self.position(),
            ensures
                enum_labels_at(old(self).toks(), old(self).position(), Seq::empty()) == if self.current() is RParen {
                    Outcome::<Seq<Seq<char>>>::Ok((strings_view(labels@), self.position() + 1))
                } else {
                    Outcome::<Seq<Seq<char>>>::Err((self.position(), ")"@))
                },
            decreases self.toks().len() - self.position(),
        {
            let label = match self.peek() {
                Token::StringLiteral(s) => s.clone(),
                _ => return Err(self.unexpected("string literal")),
            };
            self.advance();
            let ghost before = strings_view(labels@);
            labels.push(label);
            assert(strings_view(labels@) =~= before.push(label@));
            if !self.match_token(&Token::Comma) {
                break;
            }
            self.advance();
        }
        match self.expect_token(&Token::RParen, ")") {
            Ok(()) => Ok(labels),
            Err(e) => Err(e),
        }
    }

    /// `( attribute type, ... )` of a composite type.
    fn parse_type_attributes(&mut self) -> (r: Result<Vec<TypeAttribute>, ParserError>)
        requires
            old(self).wf(),
        ensures
            old(self).steps(&*final(self)),
            r is Ok ==> r->Ok_0@.len() >= 1 && final(self).position() > old(self).position(),
            !(old(self).current() is LParen) ==> r is Err && old(self).moved_to(&*final(self), old(self).position())
                && old(self).reports(r->Err_0, old(self).position(), "("@),
            old(self).current() is LParen && ident_text(tok_at(old(self).toks(), old(self).position() + 1)) is None
                ==> r is Err && old(self).moved_to(&*final(self), old(self).position() + 1)
                && old(self).reports(r->Err_0, old(self).position() + 1, "identifier"@),
            match keyword_attribute_at(old(self).toks(), old(self).position()) {
                Some((name, Err((q, e)))) => r is Err && old(self).moved_to(&*final(self), q) && old(self).reports(r->Err_0, q, e),
                Some((name, Ok((t, q)))) => !(tok_at(old(self).toks(), q) is Comma) ==> if tok_at(old(self).toks(), q) is RParen {
                    r is Ok && r->Ok_0@.len() == 1 && r->Ok_0@[0].name@ == name && type_view(r->Ok_0@[0].data_type) == t
                        && old(self).moved_to(&*final(self), q + 1)
                } else {
                    r is Err && old(self).moved_to(&*final(self), q) && old(self).reports(r->Err_0, q, ")"@)
                },
                None => true,
            },
    {
        match self.expect_token(&Token::LParen, "(") {
            Ok(()) => {},
            Err(e) => return Err(e),
        }
        let mut attributes: Vec<TypeAttribute> = Vec::new();
        loop
            invariant_except_break
                attributes@.len() == 0 ==> old(self).moved_to(&*self, old(self).position() + 1),
                single_keyword_attribute_at(old(self).toks(), old(self).position()) ==> attributes@.len() == 0,
                ident_text(tok_at(old(self).toks(), old(self).position() + 1)) is None ==> attributes@.len() == 0,
                keyword_attribute_at(old(self).toks(), old(self).position()) matches Some((_, Err(_))) ==> attributes@.len() == 0,
            invariant
                old(self).steps(&*self),
                self.position() > old(self).position(),
                old(self).current() is LParen,
            ensures
                attributes@.len() >= 1,
                ident_text(tok_at(old(self).toks(), old(self).position() + 1)) is Some,
                !(keyword_attribute_at(old(self).toks(), old(self).position()) matches Some((_, Err(_)))),
                single_keyword_attribute_at(old(self).toks(), old(self).position()) ==> attributes@.len() == 1
                    && match keyword_attribute_at(old(self).toks(), old(self).position()) {
                        Some((name, Ok((t, q)))) => attributes@[0].name@ == name && type_view(attributes@[0].data_type) == t
                            && old(self).moved_to(&*self, q),
                        _ => false,
                    },
            decreases self.toks().len() - self.position(),
        {
            let name = match self.parse_identifier() {
                Ok(n) => n,
                Err(e) => return Err(e),
            };
            let data_type = match self.parse_data_type() {
                Ok(t) => t,
                Err(e) => return Err(e),
            };
            attributes.push(TypeAttribute { name, data_type });
            if !self.match_token(&Token::Comma) {
                break;
            }
            self.advance();
        }
        match self.expect_token(&Token::RParen, ")") {
            Ok(()) => Ok(attributes),
            Err(e) => Err(e),
        }
    }

    fn parse_type_kind(&mut self) -> (r: Result<TypeKind, ParserError>)
        requires
            old(self).wf(),
        ensures
            final(self).wf(),
            old(self).steps(&*final(self)),
            match type_kind_at(old(self).toks(), old(self).position()) {
                Some(o) => agrees(&*old(self), &*final(self), r, o, |k: TypeKind| type_kind_view(k).unwrap())
                    && (r is Ok ==> type_kind_view(r->Ok_0) is Some),
                None => r is Ok ==> {
                    let k = old(self).position() + 1;
                    &&& tok_at(old(self).toks(), k) is LParen ==> r->Ok_0 is Composite
                    &&& kw_at(old(self).toks(), k, Keyword::TABLE) ==> r->Ok_0 is Table
                },
            },
    {
        if self.try_consume_keyword(Keyword::AS) || self.try_consume_keyword(Keyword::IS) {
            if self.match_keyword(Keyword::ENUM_P) {
                self.advance();
                match self.expect_token(&Token::LParen, "(") {
                    Ok(()) => {},
                    Err(e) => return Err(e),
                }
                match self.parse_enum_labels() {
                    Ok(labels) => {
                        let k = TypeKind::Enum { labels };
                        assert(type_kind_view(k) is Some);
                        Ok(k)
                    },
                    Err(e) => Err(e),
                }
            } else if self.match_token(&Token::LParen) {
                match self.parse_type_attributes() {
                    Ok(attributes) => Ok(TypeKind::Composite { attributes }),
                    Err(e) => Err(e),
                }
            } else if self.match_keyword(Keyword::TABLE) {
                self.advance();
                match self.expect_keyword(Keyword::OF) {
                    Ok(()) => {},
                    Err(e) => return Err(e),
                }
                let dt: DataType = match self.parse_data_type() {
                    Ok(t) => t,
                    Err(e) => return Err(e),
                };
                Ok(TypeKind::Table { element_type: format_data_type(&dt) })
            } else if self.match_keyword(Keyword::RANGE) {
                self.advance();
                let options = self.parse_generic_options_no_with();
                Ok(TypeKind::Range { options })
            } else {
                Err(self.unexpected("ENUM, TABLE OF, RANGE, or ("))
            }
        } else if self.match_token(&Token::LParen) {
            let options = self.parse_generic_options();
            Ok(TypeKind::Base { options })
        } else {
            Ok(TypeKind::Shell)
        }
    }

    /// `TYPE name [AS | IS] definition`: `ENUM ('a', ...)`, `(attr type, ...)`, `TABLE OF
    /// type`, `RANGE (options)`, `(options)` for a base type, or nothing for a shell type.
    pub fn parse_create_type(&mut self) -> (r: Result<CreateTypeStatement, ParserError>)
        requires
            old(self).wf(),
        ensures
            final(self).wf(),
            old(self).steps(&*final(self)),
            match create_type_head(old(self).toks(), old(self).position()) {
                Err((q, expected)) => r is Err && old(self).moved_to(&*final(self), q)
                    && old(self).reports(r->Err_0, q, expected),
                Ok((name, j)) => match type_kind_at(old(self).toks(), j) {
                    Some(Err((q, expected))) => r is Err && old(self).moved_to(&*final(self), q)
                        && old(self).reports(r->Err_0, q, expected),
                    Some(Ok((kind, q))) => r is Ok && strings_view(r->Ok_0.name@) == name
                        && type_kind_view(r->Ok_0.type_kind) == Some(kind) && old(self).moved_to(&*final(self), q),
                    None => r is Ok ==> strings_view(r->Ok_0.name@) == name && type_kind_view(r->Ok_0.type_kind) is None,
                },
            },
    {
        match self.expect_keyword(Keyword::TYPE_P) {
            Ok(()) => {},
            Err(e) => return Err(e),
        }
        proof { lemma_object_name_bounds(self.toks(), self.position()); }
        let name = match self.parse_object_name() {
            Ok(n) => n,
            Err(e) => return Err(e),
        };
        match self.parse_type_kind() {
            Ok(type_kind) => Ok(CreateTypeStatement { name, type_kind }),
            Err(e) => Err(e),
        }
    }
}

} // verus!
