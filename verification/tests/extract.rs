use op_runtime::extract::{
    block_file, block_media_type, decimal, extract_files_from_fenced_blocks,
    extract_files_from_regex_blocks, extract_files_from_source_comments, Captured, Comment,
    ExtractError, File, MediaType,
};

fn doc(text: &str, line_index: usize) -> Comment {
    Comment { is_block: true, text: text.to_string(), line_index }
}

#[test]
fn doc_comment_of_a_function() {
    // the comment of a source that starts with an empty line:
    // "\n/**\n * ```ts\n ... */\nexport function add..."
    let text = "*\n * ```ts\n * import { assertEquals } from \"@std/assert/equal\";\n * \n * assertEquals(add(1, 2), 3);\n * ```\n ";
    let files = extract_files_from_source_comments("file:///main.ts", &vec![doc(text, 1)]);
    assert_eq!(
        files,
        vec![File {
            specifier: "file:///main.ts$3-8.ts".to_string(),
            media_type: MediaType::TypeScript,
            source: "import { assertEquals } from \"@std/assert/equal\";\n\nassertEquals(add(1, 2), 3);\n\n"
                .to_string(),
        }]
    );
}

#[test]
fn doc_comments_of_a_module() {
    let module = "*\n * This is a module-level doc.\n *\n * ```js\n * const cls = new MyClass();\n * ```\n *\n * @module doc\n ";
    let function = "*\n * ```ts\n * foo();\n * ```\n ";
    let line = Comment { is_block: false, text: "* ```ts\nx\n```".to_string(), line_index: 20 };
    let plain = doc(" ```ts\nx\n```", 30);
    let comments = vec![doc(module, 1), line, doc(function, 11), plain];
    let files = extract_files_from_source_comments("file:///main.ts", &comments);
    let named: Vec<(&str, MediaType)> =
        files.iter().map(|f| (f.specifier.as_str(), f.media_type)).collect();
    assert_eq!(
        named,
        vec![
            ("file:///main.ts$5-8.js", MediaType::JavaScript),
            ("file:///main.ts$13-16.ts", MediaType::TypeScript),
        ]
    );
    assert_eq!(files[0].source, "const cls = new MyClass();\n\n");
    assert_eq!(files[1].source, "foo();\n\n");
}

#[test]
fn fenced_blocks_of_a_text() {
    let source = "\n# Header\n\nThis is a *markdown*.\n\n```js\nimport { assertEquals } from \"@std/assert/equal\";\nimport { add } from \"jsr:@deno/non-existent\";\n\nassertEquals(add(1, 2), 3);\n```\n";
    let files = extract_files_from_fenced_blocks("file:///README.md", source).unwrap();
    assert_eq!(files.len(), 1);
    assert_eq!(files[0].specifier, "file:///README.md$6-12.js");
    assert_eq!(files[0].media_type, MediaType::JavaScript);
    assert_eq!(
        files[0].source,
        "import { assertEquals } from \"@std/assert/equal\";\nimport { add } from \"jsr:@deno/non-existent\";\n\nassertEquals(add(1, 2), 3);\n\n"
    );
    assert_eq!(extract_files_from_fenced_blocks("file:///main.ts", "").unwrap(), vec![]);
}

#[test]
fn blocks_that_are_no_tests() {
    let source = "```ts ignore\na\n```\n```\nb\n```\n```rust\nc\n```\n<!--\n```ts\nd\n```\n-->\n```tsx title\n# e\n#f\n```\n```ignore-me ts\ng\n```\n";
    let files = extract_files_from_fenced_blocks("s", source).unwrap();
    assert_eq!(files.len(), 1);
    assert_eq!(files[0].specifier, "s$15-19.tsx");
    assert_eq!(files[0].media_type, MediaType::Tsx);
    assert_eq!(files[0].source, "e\nf\n\n");
}

#[test]
fn pattern_that_is_none() {
    assert_eq!(
        extract_files_from_regex_blocks("s", "```ts\na\n```", 0, "(", "(.*)"),
        Err(ExtractError::InvalidPattern)
    );
    assert_eq!(
        extract_files_from_regex_blocks("s", "```ts\na\n```", 0, "```([a-z]*)\n([^`]*)```", "("),
        Err(ExtractError::InvalidPattern)
    );
    // the second pattern is not looked at where no block is a test
    assert_eq!(
        extract_files_from_regex_blocks("s", "```\na\n```", 0, "```([a-z]*)\n([^`]*)```", "("),
        Ok(vec![])
    );
}

#[test]
fn file_of_one_block() {
    let block = Captured {
        start: 7,
        text: "```mts\nx\ny\n```".to_string(),
        groups: vec![Some("mts".to_string()), Some("x\ny\n".to_string())],
    };
    assert_eq!(block_media_type(&block), Some(MediaType::Mts));
    let line = |text: &str| Captured { start: 0, text: text.to_string(), groups: vec![Some(text.to_string())] };
    let lines = vec![line("x"), line("y"), Captured { start: 4, text: String::new(), groups: vec![None] }];
    let file = block_file("u", "a\nb\nc\n```mts\nx\ny\n```", 10, &block, MediaType::Mts, &lines);
    assert_eq!(file.specifier, "u$14-18.mts");
    assert_eq!(file.source, "x\ny\n\n");
    // a start beyond the text counts every line of it
    let far = Captured { start: 1000, ..block };
    assert_eq!(block_file("u", "a\nb", 0, &far, MediaType::Cjs, &vec![]).specifier, "u$2-6.cjs");
}

#[test]
fn numbers_in_decimal() {
    assert_eq!(decimal(0), "0");
    assert_eq!(decimal(9), "9");
    assert_eq!(decimal(10), "10");
    assert_eq!(decimal(1234567890), "1234567890");
    assert_eq!(decimal(u128::MAX), "340282366920938463463374607431768211455");
}
