//! The kernel's configuration, read from the boot command line.
//!
//! The command line is a run of keywords: `panic_cover`, `print_info` and
//! `welcome` switch an option on, and a `no` before a keyword switches it off
//! instead. Blanks may separate keywords but need not.

use crate::ascii::{ascii, spells};
use vstd::prelude::*;
use vstd::slice::slice_subrange;
use vstd::string::*;

verus! {

/// Longest run of characters that is looked at as one lexeme.
pub const LEXEME_MAX: usize = 64;

/// The configuration.
#[derive(Clone, Copy, Debug, PartialEq, Eq, Structural)]
pub struct Config {
    /// Whether a panic covers the screen in red.
    pub panic_cover: bool,
    /// Whether boot prints what it knows about the machine.
    pub print_info: bool,
    /// Whether boot prints a centered welcome.
    pub welcome: bool,
}

/// The configuration of an empty command line.
pub open spec fn default_config() -> Config {
    Config { panic_cover: true, print_info: false, welcome: true }
}

impl Default for Config {
    fn default() -> (config: Config)
        ensures
            config == default_config(),
    {
        Config { panic_cover: true, print_info: false, welcome: true }
    }
}

/// Why a command line is refused.
#[derive(Clone, Copy, Debug, PartialEq, Eq, Structural)]
pub enum ParseError {
    /// A blank came while a lexeme that is no keyword was open.
    UnknownLexeme,
    /// A lexeme grew beyond `LEXEME_MAX` characters.
    LexemeTooLong,
    /// A character whose low byte is not ASCII.
    InvalidCharacter,
}

/// The parser between two characters.
pub struct ParseState {
    /// The options as set so far.
    pub config: Config,
    /// The characters of the open lexeme, each cut down to its low byte.
    pub lexeme: Seq<u8>,
    /// Whether the next keyword switches its option off.
    pub negafier: bool,
}

/// The parser before the first character.
pub open spec fn start() -> ParseState {
    ParseState { config: default_config(), lexeme: Seq::empty(), negafier: false }
}

/// The low byte of a character.
pub open spec fn low_byte(c: char) -> u8 {
    ((c as u32) % 256) as u8
}

/// The parser after one more character.
///
/// A blank closes the open lexeme, which must be empty by then: keywords
/// are recognised with their last character. Any other character is cut down
/// to its low byte and added to the lexeme. If the lexeme is then `no`, the
/// sense of the next keyword flips; if it is a keyword, its option is set
/// and the sense is back to normal; either way the lexeme starts over.
pub open spec fn step(state: ParseState, c: char) -> Result<ParseState, ParseError> {
    let lexeme = state.lexeme.push(low_byte(c));
    if c == ' ' {
        if state.lexeme.len() != 0 {
            Err(ParseError::UnknownLexeme)
        } else {
            Ok(state)
        }
    } else if state.lexeme.len() >= LEXEME_MAX {
        Err(ParseError::LexemeTooLong)
    } else if low_byte(c) >= 0x80 {
        Err(ParseError::InvalidCharacter)
    } else if lexeme == ascii("no"@) {
        Ok(ParseState { lexeme: Seq::empty(), negafier: !state.negafier, ..state })
    } else if lexeme == ascii("panic_cover"@) {
        Ok(
            ParseState {
                config: Config { panic_cover: !state.negafier, ..state.config },
                lexeme: Seq::empty(),
                negafier: false,
            },
        )
    } else if lexeme == ascii("print_info"@) {
        Ok(
            ParseState {
                config: Config { print_info: !state.negafier, ..state.config },
                lexeme: Seq::empty(),
                negafier: false,
            },
        )
    } else if lexeme == ascii("welcome"@) {
        Ok(
            ParseState {
                config: Config { welcome: !state.negafier, ..state.config },
                lexeme: Seq::empty(),
                negafier: false,
            },
        )
    } else {
        Ok(ParseState { lexeme, ..state })
    }
}

/// The parser after the first `n` characters of `chars`, or the error that
/// stopped it before.
pub open spec fn parsed(chars: Seq<char>, n: nat) -> Result<ParseState, ParseError>
    decreases n,
{
    if n == 0 {
        Ok(start())
    } else {
        match parsed(chars, (n - 1) as nat) {
            Ok(state) => step(state, chars[n - 1]),
            Err(e) => Err(e),
        }
    }
}

/// The configuration a command line gives. A lexeme left open at the end is
/// ignored.
pub open spec fn parse_result(chars: Seq<char>) -> Result<Config, ParseError> {
    match parsed(chars, chars.len()) {
        Ok(state) => Ok(state.config),
        Err(e) => Err(e),
    }
}

/// An error ends the parse: what comes after it changes nothing.
proof fn lemma_error_is_final(chars: Seq<char>, k: nat, n: nat)
    requires
        k <= n,
        parsed(chars, k) is Err,
    ensures
        parsed(chars, n) == parsed(chars, k),
    decreases n,
{
    if k < n {
        lemma_error_is_final(chars, k, (n - 1) as nat);
    }
}

/// Reads the configuration from the boot command line.
pub fn parse(args: &str) -> (config: Result<Config, ParseError>)
    ensures
        config == parse_result(args@),
{
    let mut config = Config::default();
    let mut lexeme = [0u8;64];
    let mut len: usize = 0;
    let mut negafier = false;
    proof {
        reveal_strlit("no");
        reveal_strlit("panic_cover");
        reveal_strlit("print_info");
        reveal_strlit("welcome");
    }
    let n = args.unicode_len();
    let mut i: usize = 0;
    assert(lexeme@.take(0) =~= Seq::<u8>::empty());
    while i < n
        invariant
            i <= n,
            n == args@.len(),
            len <= LEXEME_MAX,
            is_ascii("no"),
            is_ascii("panic_cover"),
            is_ascii("print_info"),
            is_ascii("welcome"),
            parsed(args@, i as nat) == Ok::<ParseState, ParseError>(
                ParseState { config, lexeme: lexeme@.take(len as int), negafier },
            ),
        decreases n - i,
    {
        let c = args.get_char(i);
        let ghost before = ParseState { config, lexeme: lexeme@.take(len as int), negafier };
        assert(parsed(args@, (i + 1) as nat) == step(before, c));
        if c == ' ' {
            if len != 0 {
                proof {
                    lemma_error_is_final(args@, (i + 1) as nat, n as nat);
                }
                return Err(ParseError::UnknownLexeme);
            }
            lexeme = [0u8;64];
            len = 0;
            i += 1;
            assert(lexeme@.take(0) =~= before.lexeme);
            continue ;
        }
        if len >= LEXEME_MAX {
            proof {
                lemma_error_is_final(args@, (i + 1) as nat, n as nat);
            }
            return Err(ParseError::LexemeTooLong);
        }
        let byte = ((c as u32) % 256) as u8;
        lexeme[len] = byte;
        len += 1;
        assert(lexeme@.take(len as int) =~= before.lexeme.push(low_byte(c)));
        if byte >= 0x80 {
            proof {
                lemma_error_is_final(args@, (i + 1) as nat, n as nat);
            }
            return Err(ParseError::InvalidCharacter);
        }
        let open = slice_subrange(lexeme.as_slice(), 0, len);
        assert(open@ =~= lexeme@.take(len as int));
        if spells(open, "no") {
            lexeme = [0u8;64];
            len = 0;
            negafier = !negafier;
        } else if spells(open, "panic_cover") {
            config.panic_cover = !negafier;
            lexeme = [0u8;64];
            len = 0;
            negafier = false;
        } else if spells(open, "print_info") {
            config.print_info = !negafier;
            lexeme = [0u8;64];
            len = 0;
            negafier = false;
        } else if spells(open, "welcome") {
            config.welcome = !negafier;
            lexeme = [0u8;64];
            len = 0;
            negafier = false;
        }
        assert(lexeme@.take(0) =~= Seq::<u8>::empty());
        i += 1;
    }
    Ok(config)
}

} // verus!
