//! Code blocks in documentation: which of them are tests, where they
//! stand, and what the file of each holds.

use vstd::prelude::*;
use vstd::utf8::encode_utf8;

verus! {

/// The kind of source that a file holds.
#[derive(Clone, Copy, Debug, PartialEq, Eq, Structural)]
pub enum MediaType {
    JavaScript,
    Jsx,
    Mjs,
    Cjs,
    TypeScript,
    Mts,
    Cts,
    Dts,
    Dmts,
    Dcts,
    Tsx,
    Json,
    Wasm,
    SourceMap,
    Unknown,
}

impl MediaType {
    /// The extension that a file of this kind carries among TypeScript
    /// sources.
    pub open spec fn spec_ts_extension(self) -> Seq<char> {
        match self {
            MediaType::JavaScript => ".js"@,
            MediaType::Jsx => ".jsx"@,
            MediaType::Mjs => ".mjs"@,
            MediaType::Cjs => ".cjs"@,
            MediaType::TypeScript => ".ts"@,
            MediaType::Mts => ".mts"@,
            MediaType::Cts => ".cts"@,
            MediaType::Dts => ".d.ts"@,
            MediaType::Dmts => ".d.mts"@,
            MediaType::Dcts => ".d.cts"@,
            MediaType::Tsx => ".tsx"@,
            MediaType::Json => ".json"@,
            MediaType::Wasm => ".d.mts"@,
            MediaType::SourceMap => ".js"@,
            MediaType::Unknown => ".js"@,
        }
    }

    pub fn as_ts_extension(&self) -> (s: &'static str)
        ensures
            s@ == self.spec_ts_extension(),
    {
        match self {
            MediaType::JavaScript => ".js",
            MediaType::Jsx => ".jsx",
            MediaType::Mjs => ".mjs",
            MediaType::Cjs => ".cjs",
            MediaType::TypeScript => ".ts",
            MediaType::Mts => ".mts",
            MediaType::Cts => ".cts",
            MediaType::Dts => ".d.ts",
            MediaType::Dmts => ".d.mts",
            MediaType::Dcts => ".d.cts",
            MediaType::Tsx => ".tsx",
            MediaType::Json => ".json",
            MediaType::Wasm => ".d.mts",
            MediaType::SourceMap => ".js",
            MediaType::Unknown => ".js",
        }
    }
}

/// The kind of source that the first word after a code fence names.
pub open spec fn spec_media_type_of(word: Seq<u8>) -> MediaType {
    if word == encode_utf8("js"@) || word == encode_utf8("javascript"@) {
        MediaType::JavaScript
    } else if word == encode_utf8("mjs"@) {
        MediaType::Mjs
    } else if word == encode_utf8("cjs"@) {
        MediaType::Cjs
    } else if word == encode_utf8("jsx"@) {
        MediaType::Jsx
    } else if word == encode_utf8("ts"@) || word == encode_utf8("typescript"@) {
        MediaType::TypeScript
    } else if word == encode_utf8("mts"@) {
        MediaType::Mts
    } else if word == encode_utf8("cts"@) {
        MediaType::Cts
    } else if word == encode_utf8("tsx"@) {
        MediaType::Tsx
    } else {
        MediaType::Unknown
    }
}

fn same(bytes: &[u8], from: usize, to: usize, word: &str) -> (r: bool)
    requires
        from <= to <= bytes@.len(),
    ensures
        r == (bytes@.subrange(from as int, to as int) == encode_utf8(word@)),
{
    let w = word.as_bytes();
    if w.len() != to - from {
        return false;
    }
    let mut i: usize = 0;
    while i < w.len()
        invariant
            from <= to <= bytes@.len(),
            w@.len() == to - from,
            w@ == encode_utf8(word@),
            i <= w@.len(),
            forall|j: int| 0 <= j < i ==> bytes@[from + j] == w@[j],
        decreases w@.len() - i,
    {
        if bytes[from + i] != w[i] {
            proof {
                assert(bytes@.subrange(from as int, to as int)[i as int] == bytes@[from + i]);
            }
            return false;
        }
        i += 1;
    }
    proof {
        assert(bytes@.subrange(from as int, to as int) =~= w@);
    }
    true
}

/// Where the first word of `bytes` ends: at the first space among the
/// first `n` bytes, or after them.
pub open spec fn first_space(bytes: Seq<u8>, n: int) -> int
    decreases n,
{
    if n <= 0 {
        0
    } else if first_space(bytes, n - 1) < n - 1 {
        first_space(bytes, n - 1)
    } else if bytes[n - 1] == 32 {
        n - 1
    } else {
        n
    }
}

/// Whether the word `word` stands in `bytes` at `at`: from the beginning
/// or a space, up to the end or a space.
pub open spec fn word_at(bytes: Seq<u8>, at: int, word: Seq<u8>) -> bool {
    &&& 0 <= at
    &&& at + word.len() <= bytes.len()
    &&& bytes.subrange(at, at + word.len()) == word
    &&& at == 0 || bytes[at - 1] == 32
    &&& at + word.len() == bytes.len() || bytes[at + word.len()] == 32
}

/// Whether `word` is one of the words of `bytes`, which a space parts.
pub open spec fn has_word(bytes: Seq<u8>, word: Seq<u8>) -> bool {
    exists|at: int| word_at(bytes, at, word)
}

fn stands_at(bytes: &[u8], at: usize, word: &str) -> (r: bool)
    requires
        at <= bytes@.len(),
    ensures
        r == word_at(bytes@, at as int, encode_utf8(word@)),
{
    let len = word.as_bytes().len();
    if len > bytes.len() - at {
        return false;
    }
    let starts = at == 0 || bytes[at - 1] == 32;
    let ends = at + len == bytes.len() || bytes[at + len] == 32;
    starts && ends && same(bytes, at, at + len, word)
}

fn contains_word(bytes: &[u8], word: &str) -> (r: bool)
    ensures
        r == has_word(bytes@, encode_utf8(word@)),
{
    let mut at: usize = 0;
    while at < bytes.len()
        invariant
            at <= bytes@.len(),
            forall|k: int| 0 <= k < at ==> !word_at(bytes@, k, encode_utf8(word@)),
        decreases bytes@.len() - at,
    {
        if stands_at(bytes, at, word) {
            return true;
        }
        at += 1;
    }
    stands_at(bytes, at, word)
}

fn media_type_of(bytes: &[u8]) -> (m: MediaType)
    ensures
        m == spec_media_type_of(bytes@.take(first_space(bytes@, bytes@.len() as int))),
{
    let mut end: usize = 0;
    while end < bytes.len() && bytes[end] != 32
        invariant
            end <= bytes@.len(),
            first_space(bytes@, end as int) == end,
        decreases bytes@.len() - end,
    {
        end += 1;
    }
    proof {
        lemma_first_space(bytes@, end as int, bytes@.len() as int);
        assert(bytes@.take(end as int) =~= bytes@.subrange(0, end as int));
    }
    if same(bytes, 0, end, "js") || same(bytes, 0, end, "javascript") {
        MediaType::JavaScript
    } else if same(bytes, 0, end, "mjs") {
        MediaType::Mjs
    } else if same(bytes, 0, end, "cjs") {
        MediaType::Cjs
    } else if same(bytes, 0, end, "jsx") {
        MediaType::Jsx
    } else if same(bytes, 0, end, "ts") || same(bytes, 0, end, "typescript") {
        MediaType::TypeScript
    } else if same(bytes, 0, end, "mts") {
        MediaType::Mts
    } else if same(bytes, 0, end, "cts") {
        MediaType::Cts
    } else if same(bytes, 0, end, "tsx") {
        MediaType::Tsx
    } else {
        MediaType::Unknown
    }
}

proof fn lemma_first_space(bytes: Seq<u8>, end: int, n: int)
    requires
        0 <= end <= n <= bytes.len(),
        first_space(bytes, end) == end,
        end == bytes.len() || bytes[end] == 32,
    ensures
        first_space(bytes, n) == end,
    decreases n - end,
{
    if end < n {
        lemma_first_space(bytes, end, n - 1);
    }
}

/// How many of the first `n` bytes are line feeds.
pub open spec fn line_feeds(bytes: Seq<u8>, n: int) -> nat
    decreases n,
{
    if n <= 0 {
        0
    } else {
        line_feeds(bytes, n - 1) + (if bytes[n - 1] == 10 { 1nat } else { 0nat })
    }
}

proof fn lemma_line_feeds_bound(bytes: Seq<u8>, n: int)
    requires
        0 <= n,
    ensures
        line_feeds(bytes, n) <= n,
    decreases n,
{
    if n > 0 {
        lemma_line_feeds_bound(bytes, n - 1);
    }
}

fn count_line_feeds(bytes: &[u8], upto: usize) -> (count: usize)
    requires
        upto <= bytes@.len(),
    ensures
        count == line_feeds(bytes@, upto as int),
{
    let mut count: usize = 0;
    let mut i: usize = 0;
    while i < upto
        invariant
            i <= upto <= bytes@.len(),
            count == line_feeds(bytes@, i as int),
        decreases upto - i,
    {
        proof {
            lemma_line_feeds_bound(bytes@, i as int);
        }
        if bytes[i] == 10 {
            count += 1;
        }
        i += 1;
    }
    count
}

/// One decimal digit as text.
pub open spec fn digit_text(d: int) -> Seq<char> {
    if d == 0 {
        "0"@
    } else if d == 1 {
        "1"@
    } else if d == 2 {
        "2"@
    } else if d == 3 {
        "3"@
    } else if d == 4 {
        "4"@
    } else if d == 5 {
        "5"@
    } else if d == 6 {
        "6"@
    } else if d == 7 {
        "7"@
    } else if d == 8 {
        "8"@
    } else {
        "9"@
    }
}

/// A number in decimal digits.
pub open spec fn spec_decimal(n: nat) -> Seq<char>
    decreases n,
{
    if n < 10 {
        digit_text(n as int)
    } else {
        spec_decimal(n / 10) + digit_text((n % 10) as int)
    }
}

fn digit(d: u128) -> (s: &'static str)
    requires
        d < 10,
    ensures
        s@ == digit_text(d as int),
{
    if d == 0 {
        "0"
    } else if d == 1 {
        "1"
    } else if d == 2 {
        "2"
    } else if d == 3 {
        "3"
    } else if d == 4 {
        "4"
    } else if d == 5 {
        "5"
    } else if d == 6 {
        "6"
    } else if d == 7 {
        "7"
    } else if d == 8 {
        "8"
    } else {
        "9"
    }
}

/// Writes a number in decimal digits.
pub fn decimal(n: u128) -> (s: String)
    ensures
        s@ == spec_decimal(n as nat),
    decreases n,
{
    if n < 10 {
        String::from_str(digit(n))
    } else {
        decimal(n / 10).concat(digit(n % 10))
    }
}

/// One match of a pattern in a text: where it starts, in bytes; its text;
/// and the text of each group of the pattern, where the group took part.
#[derive(Debug)]
pub struct Captured {
    pub start: usize,
    pub text: String,
    pub groups: Vec<Option<String>>,
}

/// A match as a mathematical value.
pub struct CapturedView {
    pub start: nat,
    pub text: Seq<char>,
    pub groups: Seq<Option<Seq<char>>>,
}

impl View for Captured {
    type V = CapturedView;

    open spec fn view(&self) -> CapturedView {
        CapturedView {
            start: self.start as nat,
            text: self.text@,
            groups: self.groups@.map_values(
                |g: Option<String>|
                    match g {
                        Some(s) => Some(s@),
                        None => None,
                    },
            ),
        }
    }
}

/// Matches as mathematical values.
pub open spec fn captures_view(all: Option<Vec<Captured>>) -> Option<Seq<CapturedView>> {
    match all {
        Some(v) => Some(v@.map_values(|c: Captured| c@)),
        None => None,
    }
}

/// The matches of the pattern `pattern` in `text` that do not overlap,
/// from left to right; none if `pattern` is no pattern.
pub uninterp spec fn regex_captures(pattern: Seq<char>, text: Seq<char>) -> Option<Seq<CapturedView>>;

/// Compiles `pattern` with `regex::Regex::new` and walks `text` with
/// `Regex::captures_iter`. The contract claims only that the result is a
/// function of the pattern and the text: `None` where the pattern does not
/// compile, else for each match its start (`Match::start` of group 0), its
/// text, and the text of every further group (`Captures::get`).
#[verifier::external_body]
fn captures(pattern: &str, text: &str) -> (all: Option<Vec<Captured>>)
    ensures
        captures_view(all) == regex_captures(pattern@, text@),
{
    let re = regex::Regex::new(pattern).ok()?;
    let mut all = Vec::new();
    for c in re.captures_iter(text) {
        let whole = c.get(0)?;
        let groups = (1..c.len()).map(|i| c.get(i).map(|m| m.as_str().to_string())).collect();
        all.push(Captured { start: whole.start(), text: whole.as_str().to_string(), groups });
    }
    Some(all)
}

/// A file that was cut out of documentation.
#[derive(Debug, PartialEq, Eq)]
pub struct File {
    pub specifier: String,
    pub media_type: MediaType,
    pub source: String,
}

/// A file as a mathematical value.
pub struct FileView {
    pub specifier: Seq<char>,
    pub media_type: MediaType,
    pub source: Seq<char>,
}

impl View for File {
    type V = FileView;

    open spec fn view(&self) -> FileView {
        FileView { specifier: self.specifier@, media_type: self.media_type, source: self.source@ }
    }
}

/// The kind of source of a code block, if the block is a test: it has
/// words after its fence, none of them is "ignore", and the first names a
/// kind of source.
pub open spec fn spec_block_media_type(block: CapturedView) -> Option<MediaType> {
    if block.groups.len() == 0 {
        None
    } else {
        match block.groups[0] {
            None => None,
            Some(attributes) => {
                let bytes = encode_utf8(attributes);
                let media_type = spec_media_type_of(
                    bytes.take(first_space(bytes, bytes.len() as int)),
                );
                if has_word(bytes, encode_utf8("ignore"@)) || media_type == MediaType::Unknown {
                    None
                } else {
                    Some(media_type)
                }
            },
        }
    }
}

/// Says of which kind of source a code block is, if it is a test.
pub fn block_media_type(block: &Captured) -> (m: Option<MediaType>)
    ensures
        m == spec_block_media_type(block@),
{
    if block.groups.len() == 0 {
        return None;
    }
    match &block.groups[0] {
        None => None,
        Some(attributes) => {
            let bytes = attributes.as_str().as_bytes();
            if contains_word(bytes, "ignore") {
                return None;
            }
            let media_type = media_type_of(bytes);
            match media_type {
                MediaType::Unknown => None,
                _ => Some(media_type),
            }
        },
    }
}

/// The body of a code block: its second group, or nothing.
pub open spec fn spec_body(block: CapturedView) -> Seq<char> {
    if block.groups.len() >= 2 && block.groups[1] is Some {
        block.groups[1]->0
    } else {
        Seq::empty()
    }
}

/// The first group of a match, or nothing.
pub open spec fn spec_line(line: CapturedView) -> Seq<char> {
    if line.groups.len() >= 1 && line.groups[0] is Some {
        line.groups[0]->0
    } else {
        Seq::empty()
    }
}

/// The first `n` lines, each with a line feed after it.
pub open spec fn spec_source(lines: Seq<CapturedView>, n: int) -> Seq<char>
    decreases n,
{
    if n <= 0 {
        Seq::empty()
    } else {
        spec_source(lines, n - 1) + spec_line(lines[n - 1]) + "\n"@
    }
}

/// The number of the line on which a block starts, counted from 1: the
/// line of the text that holds it, the line feeds before it, and one.
pub open spec fn spec_first_line(source: Seq<u8>, file_line_index: nat, block: CapturedView) -> nat {
    let start = if block.start <= source.len() {
        block.start as int
    } else {
        source.len() as int
    };
    file_line_index + line_feeds(source, start) + 1
}

/// The number of the line after the last line of a block.
pub open spec fn spec_end_line(source: Seq<u8>, file_line_index: nat, block: CapturedView) -> nat {
    let text = encode_utf8(block.text);
    spec_first_line(source, file_line_index, block) + line_feeds(text, text.len() as int) + 1
}

/// The file of a code block that is a test of kind `media_type`: it is
/// named after the text that holds it and the lines of the block, and
/// holds the lines of the body.
pub open spec fn spec_block_file(
    specifier: Seq<char>,
    source: Seq<char>,
    file_line_index: nat,
    block: CapturedView,
    media_type: MediaType,
    lines: Seq<CapturedView>,
) -> FileView {
    let bytes = encode_utf8(source);
    FileView {
        specifier: specifier + "$"@ + spec_decimal(spec_first_line(bytes, file_line_index, block))
            + "-"@ + spec_decimal(spec_end_line(bytes, file_line_index, block))
            + media_type.spec_ts_extension(),
        media_type,
        source: spec_source(lines, lines.len() as int),
    }
}

fn line_of(line: &Captured) -> (s: &str)
    ensures
        s@ == spec_line(line@),
{
    proof {
        reveal_strlit("");
        assert(""@ =~= Seq::<char>::empty());
        if line.groups@.len() >= 1 {
            assert(line@.groups[0] == (match line.groups@[0] {
                Some(s) => Some(s@),
                None => None,
            }));
        }
    }
    if line.groups.len() >= 1 {
        match &line.groups[0] {
            Some(text) => text.as_str(),
            None => "",
        }
    } else {
        ""
    }
}

/// Makes the file of the code block `block` of `source`, which is a test
/// of kind `media_type`, from the lines `lines` of its body.
pub fn block_file(
    specifier: &str,
    source: &str,
    file_line_index: usize,
    block: &Captured,
    media_type: MediaType,
    lines: &Vec<Captured>,
) -> (file: File)
    ensures
        file@ == spec_block_file(
            specifier@,
            source@,
            file_line_index as nat,
            block@,
            media_type,
            lines@.map_values(|c: Captured| c@),
        ),
{
    let bytes = source.as_bytes();
    let start = if block.start <= bytes.len() {
        block.start
    } else {
        bytes.len()
    };
    let line_offset = count_line_feeds(bytes, start);
    let text = block.text.as_str().as_bytes();
    let line_count = count_line_feeds(text, text.len());
    proof {
        lemma_line_feeds_bound(bytes@, start as int);
        lemma_line_feeds_bound(text@, text@.len() as int);
    }
    let first = file_line_index as u128 + line_offset as u128 + 1;
    let end = first + line_count as u128 + 1;

    let ghost views = lines@.map_values(|c: Captured| c@);
    let mut file_source = String::new();
    let mut i: usize = 0;
    while i < lines.len()
        invariant
            i <= lines@.len(),
            views == lines@.map_values(|c: Captured| c@),
            file_source@ == spec_source(views, i as int),
        decreases lines@.len() - i,
    {
        file_source.append(line_of(&lines[i]));
        file_source.append("\n");
        i += 1;
    }
    let name = String::from_str(specifier).concat("$").concat(decimal(first).as_str()).concat(
        "-",
    ).concat(decimal(end).as_str()).concat(media_type.as_ts_extension());
    File { specifier: name, media_type, source: file_source }
}

/// Why no files could be cut out.
#[derive(Clone, Copy, Debug, PartialEq, Eq, Structural)]
pub enum ExtractError {
    /// A pattern is no pattern.
    InvalidPattern,
}

/// The files of the first `n` blocks: for each block that is a test, the
/// file made from the matches of `lines_regex` in its body. None if
/// `lines_regex` is needed and is no pattern.
pub open spec fn spec_extract(
    specifier: Seq<char>,
    source: Seq<char>,
    file_line_index: nat,
    blocks: Seq<CapturedView>,
    lines_regex: Seq<char>,
    n: int,
) -> Option<Seq<FileView>>
    decreases n,
{
    if n <= 0 {
        Some(Seq::empty())
    } else {
        match spec_extract(specifier, source, file_line_index, blocks, lines_regex, n - 1) {
            None => None,
            Some(files) => match spec_block_media_type(blocks[n - 1]) {
                None => Some(files),
                Some(media_type) => match regex_captures(lines_regex, spec_body(blocks[n - 1])) {
                    None => None,
                    Some(lines) => Some(
                        files.push(
                            spec_block_file(
                                specifier,
                                source,
                                file_line_index,
                                blocks[n - 1],
                                media_type,
                                lines,
                            ),
                        ),
                    ),
                },
            },
        }
    }
}

/// What cutting files out of `source` has to give.
pub open spec fn spec_extract_all(
    specifier: Seq<char>,
    source: Seq<char>,
    file_line_index: nat,
    blocks_regex: Seq<char>,
    lines_regex: Seq<char>,
) -> Option<Seq<FileView>> {
    match regex_captures(blocks_regex, source) {
        None => None,
        Some(blocks) => spec_extract(
            specifier,
            source,
            file_line_index,
            blocks,
            lines_regex,
            blocks.len() as int,
        ),
    }
}

/// Files as mathematical values.
pub open spec fn files_view(files: Seq<File>) -> Seq<FileView> {
    files.map_values(|f: File| f@)
}

fn body_of(block: &Captured) -> (s: &str)
    ensures
        s@ == spec_body(block@),
{
    proof {
        reveal_strlit("");
        assert(""@ =~= Seq::<char>::empty());
        if block.groups@.len() >= 2 {
            assert(block@.groups[1] == (match block.groups@[1] {
                Some(s) => Some(s@),
                None => None,
            }));
        }
    }
    if block.groups.len() >= 2 {
        match &block.groups[1] {
            Some(text) => text.as_str(),
            None => "",
        }
    } else {
        ""
    }
}

/// Cuts the tests out of `source`: every match of `blocks_regex` is a
/// code block, whose first group holds the words after the fence and
/// whose second group holds the body; the first group of every match of
/// `lines_regex` in the body is a line of the test.
pub fn extract_files_from_regex_blocks(
    specifier: &str,
    source: &str,
    file_line_index: usize,
    blocks_regex: &str,
    lines_regex: &str,
) -> (r: Result<Vec<File>, ExtractError>)
    ensures
        match spec_extract_all(
            specifier@,
            source@,
            file_line_index as nat,
            blocks_regex@,
            lines_regex@,
        ) {
            Some(files) => r matches Ok(v) && files_view(v@) == files,
            None => r matches Err(e) && e == ExtractError::InvalidPattern,
        },
{
    let blocks = match captures(blocks_regex, source) {
        Some(blocks) => blocks,
        None => {
            return Err(ExtractError::InvalidPattern);
        },
    };
    let ghost views = blocks@.map_values(|c: Captured| c@);
    let mut files: Vec<File> = Vec::new();
    let mut i: usize = 0;
    while i < blocks.len()
        invariant
            i <= blocks@.len(),
            views == blocks@.map_values(|c: Captured| c@),
            regex_captures(blocks_regex@, source@) == Some(views),
            spec_extract(
                specifier@,
                source@,
                file_line_index as nat,
                views,
                lines_regex@,
                i as int,
            ) == Some(files_view(files@)),
        decreases blocks@.len() - i,
    {
        match block_media_type(&blocks[i]) {
            Some(media_type) => {
                let lines = match captures(lines_regex, body_of(&blocks[i])) {
                    Some(lines) => lines,
                    None => {
                        proof {
                            assert(views[i as int] == blocks@[i as int]@);
                            assert(spec_extract(
                                specifier@,
                                source@,
                                file_line_index as nat,
                                views,
                                lines_regex@,
                                i as int + 1,
                            ) is None);
                            lemma_extract_fails(
                                specifier@,
                                source@,
                                file_line_index as nat,
                                views,
                                lines_regex@,
                                i as int + 1,
                                views.len() as int,
                            );
                        }
                        return Err(ExtractError::InvalidPattern);
                    },
                };
                let ghost before = files_view(files@);
                let file = block_file(
                    specifier,
                    source,
                    file_line_index,
                    &blocks[i],
                    media_type,
                    &lines,
                );
                files.push(file);
                proof {
                    assert(files_view(files@) =~= before.push(file@));
                }
            },
            None => {},
        }
        i += 1;
    }
    Ok(files)
}

proof fn lemma_extract_fails(
    specifier: Seq<char>,
    source: Seq<char>,
    file_line_index: nat,
    blocks: Seq<CapturedView>,
    lines_regex: Seq<char>,
    at: int,
    n: int,
)
    requires
        0 <= at <= n,
        spec_extract(specifier, source, file_line_index, blocks, lines_regex, at) is None,
    ensures
        spec_extract(specifier, source, file_line_index, blocks, lines_regex, n) is None,
    decreases n - at,
{
    if at < n {
        lemma_extract_fails(specifier, source, file_line_index, blocks, lines_regex, at, n - 1);
    }
}

/// The pattern of a fenced code block in a text, or of a comment of the
/// markup, which has no groups.
pub open spec fn spec_fenced_blocks() -> Seq<char> {
    "(?s)<!--.*?-->|```([^\r\n]*)\r?\n([\\S\\s]*?)```"@
}

/// Cuts the tests out of a text with fenced code blocks. Blocks inside
/// comments of the markup are no tests. A line of a test may begin with a
/// number sign, which is left out.
pub fn extract_files_from_fenced_blocks(specifier: &str, source: &str) -> (r: Result<Vec<File>, ExtractError>)
    ensures
        match spec_extract_all(specifier@, source@, 0, spec_fenced_blocks(), "(?:\\# ?)?(.*)"@) {
            Some(files) => r matches Ok(v) && files_view(v@) == files,
            None => r matches Err(e) && e == ExtractError::InvalidPattern,
        },
{
    extract_files_from_regex_blocks(
        specifier,
        source,
        0,
        "(?s)<!--.*?-->|```([^\r\n]*)\r?\n([\\S\\s]*?)```",
        "(?:\\# ?)?(.*)",
    )
}

/// A comment of a source file: whether it is a block comment, its text
/// between the comment marks, and the line on which it starts, counted
/// from 0.
#[derive(Debug)]
pub struct Comment {
    pub is_block: bool,
    pub text: String,
    pub line_index: usize,
}

/// Whether a comment is documentation: a block comment whose text begins
/// with a star.
pub open spec fn spec_is_doc(comment: Comment) -> bool {
    comment.is_block && encode_utf8(comment.text@).len() > 0 && encode_utf8(comment.text@)[0] == 42
}

/// The tests in the documentation among the first `n` comments, comment
/// by comment. A line of a test begins with a star, and may go on with a
/// number sign; both are left out.
pub open spec fn spec_from_comments(specifier: Seq<char>, comments: Seq<Comment>, n: int) -> Seq<FileView>
    decreases n,
{
    if n <= 0 {
        Seq::empty()
    } else {
        let comment = comments[n - 1];
        spec_from_comments(specifier, comments, n - 1) + (if spec_is_doc(comment) {
            match spec_extract_all(
                specifier,
                comment.text@,
                comment.line_index as nat,
                "```([^\r\n]*)\r?\n([\\S\\s]*?)```"@,
                "(?:\\* ?)(?:\\# ?)?(.*)"@,
            ) {
                Some(files) => files,
                None => Seq::empty(),
            }
        } else {
            Seq::empty()
        })
    }
}

fn append_files(all: &mut Vec<File>, files: Vec<File>)
    ensures
        files_view(final(all)@) == files_view(old(all)@) + files_view(files@),
{
    let ghost before = files_view(all@);
    let ghost found = files_view(files@);
    for file in it: files
        invariant
            it.seq() == files@,
            found == files_view(files@),
            files_view(all@) == before + found.take(it.index()),
    {
        let ghost prev = files_view(all@);
        all.push(file);
        proof {
            assert(files_view(all@) =~= prev.push(file@));
            assert(found[it.index()] == file@);
            assert(found.take(it.index() + 1) =~= found.take(it.index()).push(file@));
            assert(prev.push(file@) =~= before + found.take(it.index() + 1));
        }
    }
    proof {
        assert(found.take(found.len() as int) =~= found);
    }
}

/// Cuts the tests out of the documentation comments of a source file.
pub fn extract_files_from_source_comments(specifier: &str, comments: &Vec<Comment>) -> (all: Vec<File>)
    ensures
        files_view(all@) == spec_from_comments(specifier@, comments@, comments@.len() as int),
{
    let mut all: Vec<File> = Vec::new();
    let mut i: usize = 0;
    while i < comments.len()
        invariant
            i <= comments@.len(),
            files_view(all@) == spec_from_comments(specifier@, comments@, i as int),
        decreases comments@.len() - i,
    {
        let comment = &comments[i];
        let bytes = comment.text.as_str().as_bytes();
        let ghost before = files_view(all@);
        if comment.is_block && bytes.len() > 0 && bytes[0] == 42 {
            match extract_files_from_regex_blocks(
                specifier,
                comment.text.as_str(),
                comment.line_index,
                "```([^\r\n]*)\r?\n([\\S\\s]*?)```",
                "(?:\\* ?)(?:\\# ?)?(.*)",
            ) {
                Ok(files) => {
                    append_files(&mut all, files);
                },
                Err(_) => {
                    proof {
                        assert(files_view(all@) =~= before + Seq::<FileView>::empty());
                    }
                },
            }
        } else {
            proof {
                assert(files_view(all@) =~= before + Seq::<FileView>::empty());
            }
        }
        i += 1;
    }
    all
}

} // verus!
