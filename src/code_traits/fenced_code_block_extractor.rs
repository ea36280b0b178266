//! Extraction of fenced code blocks, such as
//! "```python\nprint(1)\n```", from free text.
use vstd::prelude::*;

use super::CodeExtractor;

verus! {

/// A language that fenced code blocks may be written in.
#[non_exhaustive]
#[derive(Debug, Clone, Copy, PartialEq, Eq, Structural)]
pub enum Language {
    Rust,
    Python,
}

/// The language that a fence's info string names, if any.
pub open spec fn language_named(name: Seq<char>) -> Option<Language> {
    if name == "rust"@ {
        Some(Language::Rust)
    } else if name == "python"@ {
        Some(Language::Python)
    } else {
        None
    }
}

impl Language {
    /// The language that `name` names: "rust" or "python".
    pub fn from_name(name: &str) -> (r: Option<Language>)
        ensures
            r == language_named(name@),
    {
        let name = name.to_owned();
        let rust = "rust".to_owned();
        let python = "python".to_owned();
        if name == rust {
            Some(Language::Rust)
        } else if name == python {
            Some(Language::Python)
        } else {
            None
        }
    }
}

/// A block of code and the language it is written in.
#[derive(Debug, Clone, PartialEq)]
pub struct CodeBlock {
    pub language: Language,
    pub code: String,
}

impl View for CodeBlock {
    type V = (Language, Seq<char>);

    open spec fn view(&self) -> (Language, Seq<char>) {
        (self.language, self.code@)
    }
}

/// The fence: three backticks, a word naming the language and a line break,
/// then the code, as little of it as reaches a line break followed by three
/// backticks.
pub const FENCE_PATTERN: &'static str = "```(?P<language>\\w+)\\n(?s)(?P<code>.+?)\\n```";

/// For each match of `pattern` in `text`, left to right, the text of its
/// capture groups 1 and 2 (empty where a group took no part); `None` where
/// `pattern` is not a valid regular expression.
pub uninterp spec fn regex_capture_pairs(pattern: Seq<char>, text: Seq<char>) -> Option<Seq<(Seq<char>, Seq<char>)>>;

/// The views of a sequence of pairs of strings.
pub open spec fn pair_views(pairs: Seq<(String, String)>) -> Seq<(Seq<char>, Seq<char>)> {
    pairs.map_values(|p: (String, String)| (p.0@, p.1@))
}

/// Relies on regex::Regex::new, to compile `pattern`, and on
/// Regex::captures_iter, for the successive non-overlapping matches in `text`
/// and the text of their capture groups.
#[verifier::external_body]
fn capture_pairs(pattern: &str, text: &str) -> (r: Option<Vec<(String, String)>>)
    ensures
        match regex_capture_pairs(pattern@, text@) {
            Some(pairs) => r is Some && pair_views(r.unwrap()@) == pairs,
            None => r is None,
        },
{
    let re = match regex::Regex::new(pattern) {
        Ok(re) => re,
        Err(_) => return None,
    };
    let mut pairs = Vec::new();
    for caps in re.captures_iter(text) {
        let first = caps.get(1).map_or("", |m| m.as_str());
        let second = caps.get(2).map_or("", |m| m.as_str());
        pairs.push((first.to_string(), second.to_string()));
    }
    Some(pairs)
}

/// The code blocks that captured (language, code) pairs describe: one for
/// each pair whose language is known, in order; the others are skipped.
pub open spec fn code_blocks_of(pairs: Seq<(Seq<char>, Seq<char>)>) -> Seq<(Language, Seq<char>)>
    decreases pairs.len(),
{
    if pairs.len() == 0 {
        Seq::empty()
    } else {
        let rest = code_blocks_of(pairs.drop_last());
        let last = pairs.last();
        match language_named(last.0) {
            Some(language) => rest.push((language, last.1)),
            None => rest,
        }
    }
}

/// The views of a sequence of code blocks.
pub open spec fn block_views(blocks: Seq<CodeBlock>) -> Seq<(Language, Seq<char>)> {
    blocks.map_values(|b: CodeBlock| b@)
}

/// Builds the code blocks that captured (language, code) pairs describe.
pub fn code_blocks_from_captures(pairs: &Vec<(String, String)>) -> (r: Vec<CodeBlock>)
    ensures
        block_views(r@) == code_blocks_of(pair_views(pairs@)),
{
    let mut blocks: Vec<CodeBlock> = Vec::new();
    let mut i: usize = 0;
    while i < pairs.len()
        invariant
            i <= pairs@.len(),
            block_views(blocks@) == code_blocks_of(pair_views(pairs@).subrange(0, i as int)),
        decreases pairs@.len() - i,
    {
        let ghost prefix = pair_views(pairs@).subrange(0, i as int);
        let ghost next = pair_views(pairs@).subrange(0, i + 1);
        assert(next.drop_last() =~= prefix);
        assert(next.last() == (pairs@[i as int].0@, pairs@[i as int].1@));
        match Language::from_name(pairs[i].0.as_str()) {
            Some(language) => {
                blocks.push(CodeBlock { language, code: pairs[i].1.clone() });
                assert(block_views(blocks@) =~= code_blocks_of(next));
            },
            None => {},
        }
        i = i + 1;
    }
    assert(pair_views(pairs@).subrange(0, pairs@.len() as int) =~= pair_views(pairs@));
    blocks
}

/// Finds fenced code blocks whose language is known.
pub struct FencedCodeBlockExtractor;

impl CodeExtractor<String> for FencedCodeBlockExtractor {
    type CodeBlock = CodeBlock;

    fn extract_code_blocks(&self, string: String) -> (r: Vec<CodeBlock>)
        ensures
            match regex_capture_pairs(FENCE_PATTERN@, string@) {
                Some(pairs) => block_views(r@) == code_blocks_of(pairs),
                None => r@.len() == 0,
            },
    {
        match capture_pairs(FENCE_PATTERN, string.as_str()) {
            Some(pairs) => code_blocks_from_captures(&pairs),
            None => Vec::new(),
        }
    }
}

} // verus!
