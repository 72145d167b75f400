//! The items that only a module has: `import` and `export` declarations.

use vstd::prelude::*;
use vstd::string::StringSliceAdditionalSpecFns;
use crate::tokenizer::tokens::PunctuatorToken;
use crate::parser::{Parser, Flag, kept, remaining, lemma_parser_remaining, filled, starts_with_word, starts_with_punc};
use crate::parser::tokens::ParseError;
use crate::parser::{at_end, lemma_at_end};

verus! {


broadcast use lemma_parser_remaining, lemma_at_end;

impl<'code> Parser<'code> {

    /// `import "m";`, or `import` bindings `from "m";`: a default binding, a
    /// namespace `* as name`, or named specifiers in braces, the default
    /// binding followed by a comma and one of the two others.
    pub fn parse_import_declaration(&mut self) -> (r: Result<bool, ParseError>)
        requires
            old(self).wf(),
        ensures
            final(self).wf(),
            r is Ok ==> kept(old(self).state(), final(self).state()),
            r == Ok::<bool, ParseError>(true) ==> remaining(final(self).state()) < remaining(old(self).state()),
            r == Ok::<bool, ParseError>(false) <==> (filled(old(self).state()) is Some && !starts_with_word(old(self).state(), "import".spec_bytes())),
            r == Ok::<bool, ParseError>(false) ==> filled(old(self).state()) == Some(final(self).state()),
            at_end(old(self).state()) ==> r == Ok::<bool, ParseError>(false) && at_end(final(self).state())
                && final(self).state().taken == old(self).state().taken,
        decreases remaining(old(self).state()), 13nat,
    {
        proof {
            lemma_at_end(old(self).state());
        }
        if self.keyword("import")?.is_none() {
            return Ok(false);
        }
        if self.string()?.is_none() {
            let try_names = if self.binding_identifier()?.is_some() {
                self.punc(PunctuatorToken::Comma)?.is_some()
            } else {
                true
            };
            if try_names {
                if self.punc(PunctuatorToken::Star)?.is_some() {
                    if self.keyword("as")?.is_none() {
                        return Err(ParseError {});
                    }
                    if self.binding_identifier()?.is_none() {
                        return Err(ParseError {});
                    }
                } else {
                    if self.punc(PunctuatorToken::CurlyOpen)?.is_none() {
                        return Err(ParseError {});
                    }
                    loop
                        invariant
                            !at_end(old(self).state()),
                            starts_with_word(old(self).state(), "import".spec_bytes()),
                            self.wf(),
                            kept(old(self).state(), self.state()),
                            remaining(self.state()) < remaining(old(self).state()),
                        decreases remaining(self.state()),
                    {
                        if !self.parse_import_specifier()? {
                            break;
                        }
                        if self.punc(PunctuatorToken::Comma)?.is_none() {
                            break;
                        }
                    }
                    if self.punc(PunctuatorToken::CurlyClose)?.is_none() {
                        return Err(ParseError {});
                    }
                }
            }
            if self.keyword("from")?.is_none() {
                return Err(ParseError {});
            }
            if self.string()?.is_none() {
                return Err(ParseError {});
            }
        }
        if !self.semicolon()? {
            return Err(ParseError {});
        }
        Ok(true)
    }

    /// `name` or `name as local` inside the braces of an import.
    fn parse_import_specifier(&mut self) -> (r: Result<bool, ParseError>)
        requires
            old(self).wf(),
        ensures
            final(self).wf(),
            r is Ok ==> kept(old(self).state(), final(self).state()),
            r == Ok::<bool, ParseError>(true) ==> remaining(final(self).state()) < remaining(old(self).state()),
        decreases remaining(old(self).state()), 12nat,
    {
        if self.identifier()?.is_none() {
            return Ok(false);
        }
        if self.keyword("as")?.is_some() {
            if self.identifier()?.is_none() {
                return Err(ParseError {});
            }
        }
        Ok(true)
    }

    /// `export default` with a function or class declaration, whose name may
    /// be left out, or with `expression;`; or `export` of a declaration, of all of
    /// a module (`* from "m"`) or of named specifiers in braces, these last
    /// optionally `from "m"`.
    pub fn parse_export_declaration(&mut self) -> (r: Result<bool, ParseError>)
        requires
            old(self).wf(),
        ensures
            final(self).wf(),
            r is Ok ==> kept(old(self).state(), final(self).state()),
            r == Ok::<bool, ParseError>(true) ==> remaining(final(self).state()) < remaining(old(self).state()),
            r == Ok::<bool, ParseError>(false) <==> (filled(old(self).state()) is Some && !starts_with_word(old(self).state(), "export".spec_bytes())),
            r == Ok::<bool, ParseError>(false) ==> filled(old(self).state()) == Some(final(self).state()),
            at_end(old(self).state()) ==> r == Ok::<bool, ParseError>(false) && at_end(final(self).state())
                && final(self).state().taken == old(self).state().taken,
        decreases remaining(old(self).state()), 13nat,
    {
        proof {
            lemma_at_end(old(self).state());
        }
        if self.keyword("export")?.is_none() {
            return Ok(false);
        }
        if self.keyword("default")?.is_some() {
            self.with(Flag::Default);
            if self.parse_function_declaration()? {
            } else if self.parse_class_declaration()? {
            } else {
                self.with(Flag::In);
                self.expect_expression();
                if !self.parse_expression()? {
                    return Err(ParseError {});
                }
                self.pop_flags();
                if !self.semicolon()? {
                    return Err(ParseError {});
                }
            }
            self.pop_flags();
            proof {
                assert(self.state().stack =~= old(self).state().stack);
            }
        } else {
            if self.parse_variable_statement()? {
            } else if self.parse_declaration()? {
            } else if self.punc(PunctuatorToken::Star)?.is_some() {
                if self.keyword("from")?.is_none() {
                    return Err(ParseError {});
                }
                if self.string()?.is_none() {
                    return Err(ParseError {});
                }
            } else {
                if self.punc(PunctuatorToken::CurlyOpen)?.is_none() {
                    return Err(ParseError {});
                }
                loop
                    invariant
                        !at_end(old(self).state()),
                        starts_with_word(old(self).state(), "export".spec_bytes()),
                        self.wf(),
                        kept(old(self).state(), self.state()),
                        remaining(self.state()) < remaining(old(self).state()),
                    decreases remaining(self.state()),
                {
                    if !self.parse_export_specifier()? {
                        break;
                    }
                    if self.punc(PunctuatorToken::Comma)?.is_none() {
                        break;
                    }
                }
                if self.punc(PunctuatorToken::CurlyClose)?.is_none() {
                    return Err(ParseError {});
                }
                if self.keyword("from")?.is_some() {
                    if self.string()?.is_none() {
                        return Err(ParseError {});
                    }
                }
            }
            if !self.semicolon()? {
                return Err(ParseError {});
            }
        }
        Ok(true)
    }

    /// `name` or `name as exported` inside the braces of an export.
    fn parse_export_specifier(&mut self) -> (r: Result<bool, ParseError>)
        requires
            old(self).wf(),
        ensures
            final(self).wf(),
            r is Ok ==> kept(old(self).state(), final(self).state()),
            r == Ok::<bool, ParseError>(true) ==> remaining(final(self).state()) < remaining(old(self).state()),
        decreases remaining(old(self).state()), 12nat,
    {
        if self.identifier()?.is_none() {
            return Ok(false);
        }
        if self.keyword("as")?.is_some() {
            if self.identifier()?.is_none() {
                return Err(ParseError {});
            }
        }
        Ok(true)
    }
}

} // verus!
