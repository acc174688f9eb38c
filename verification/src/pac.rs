//! Generation of the proxy auto-config (PAC) script.
//!
//! The script is a template in which three placeholders are filled in: the
//! rule array, the HTTP proxy port and the SOCKS5 proxy port.

use crate::text::{
    begins_with, chars_of, contains, contains_text, decimal, decimal_chars, extend_chars, is_space,
    join, joined, lemma_trimmed_has_no_outer_space, lines, lines_of, replace, replaced,
    starts_with_char, string_of, texts, trim, trimmed,
};
use vstd::prelude::*;
use vstd::string::*;

verus! {

/// Why no PAC script was produced.
#[derive(Clone, Copy, Debug, PartialEq, Eq, Structural)]
pub enum PacError {
    /// The filled-in template does not define the entry point.
    InvalidData,
}

impl PacError {
    /// A description of the error for logs and messages.
    pub fn describe(&self) -> (text: String)
        ensures
            text@ == "Generated PAC content is invalid."@,
    {
        "Generated PAC content is invalid.".to_owned()
    }
}

/// Whether a trimmed line is a rule: not blank, not a comment (`!`), not a
/// section header (`[`).
pub open spec fn is_rule(line: Seq<char>) -> bool {
    line.len() > 0 && !begins_with(line, '!') && !begins_with(line, '[')
}

/// `line` between double quotes.
pub open spec fn quoted(line: Seq<char>) -> Seq<char> {
    seq!['"'] + line + seq!['"']
}

/// The array element that a raw line contributes, if any.
pub open spec fn rule_of(line: Seq<char>) -> Option<Seq<char>> {
    let t = trimmed(line);
    if is_rule(t) {
        Some(quoted(t))
    } else {
        None
    }
}

/// The elements of the rule array: the custom rules first, then the block
/// list, each surviving line trimmed and quoted.
pub open spec fn rule_items(custom_rules: Seq<char>, block_list: Seq<char>) -> Seq<Seq<char>> {
    rules_from(lines_of(custom_rules) + lines_of(block_list))
}

/// The array elements that a sequence of raw lines contributes, in order.
pub open spec fn rules_from(all: Seq<Seq<char>>) -> Seq<Seq<char>> {
    all.filter_map(|l: Seq<char>| rule_of(l))
}

/// The rule array as script text.
pub open spec fn rules_array(custom_rules: Seq<char>, block_list: Seq<char>) -> Seq<char> {
    seq!['[', '\n'] + joined(rule_items(custom_rules, block_list), seq![',', '\n']) + seq![
        '\n',
        ']',
    ]
}

/// The template with its three placeholders filled in.
pub open spec fn pac_text(
    custom_rules: Seq<char>,
    block_list: Seq<char>,
    template: Seq<char>,
    http_port: u16,
    socks_port: u16,
) -> Seq<char> {
    replaced(
        replaced(
            replaced(template, "__RULES__"@, rules_array(custom_rules, block_list)),
            "__HTTP__PORT__"@,
            decimal(http_port as nat),
        ),
        "__SOCKS5__PORT__"@,
        decimal(socks_port as nat),
    )
}

/// Whether a script defines the entry point that consumers call.
pub open spec fn is_valid_pac(content: Seq<char>) -> bool {
    contains_text(content, "function FindProxyForURL"@)
}

/// The shape of a rule array element: a line between double quotes that is
/// not empty and starts neither with `!`, nor with `[`, nor with white space.
pub open spec fn is_quoted_rule(item: Seq<char>) -> bool {
    &&& item.len() >= 3
    &&& item[0] == '"'
    &&& item.last() == '"'
    &&& item[1] != '!'
    &&& item[1] != '['
    &&& !is_space(item[1])
}

/// Every element of the rule array is a quoted rule: blank lines, comments
/// and section headers never reach the array.
pub proof fn lemma_rule_items_exclude_comments(custom_rules: Seq<char>, block_list: Seq<char>)
    ensures
        forall|i: int|
            0 <= i < rule_items(custom_rules, block_list).len() ==> #[trigger] is_quoted_rule(
                rule_items(custom_rules, block_list)[i],
            ),
{
    let all = lines_of(custom_rules) + lines_of(block_list);
    lemma_filter_map_items(all);
}

proof fn lemma_filter_map_items(all: Seq<Seq<char>>)
    ensures
        forall|i: int|
            0 <= i < rules_from(all).len() ==> #[trigger] is_quoted_rule(rules_from(all)[i]),
    decreases all.len(),
{
    if all.len() > 0 {
        let before = rules_from(all.drop_last());
        lemma_filter_map_items(all.drop_last());
        let t = trimmed(all.last());
        lemma_trimmed_has_no_outer_space(all.last());
        if is_rule(t) {
            assert(quoted(t)[1] == t[0]);
            assert(is_quoted_rule(quoted(t)));
            assert(rules_from(all) == before + seq![quoted(t)]);
        } else {
            assert(rules_from(all) == before);
        }
        assert forall|i: int| 0 <= i < rules_from(all).len() implies #[trigger] is_quoted_rule(
            rules_from(all)[i],
        ) by {
            if i < before.len() {
                assert(is_quoted_rule(before[i]));
            }
        }
    }
}

/// Every rule reaches the rule array: a line that, trimmed, is not blank
/// and starts neither with `!` nor with `[` stands in the array, trimmed and
/// quoted.
pub proof fn lemma_rule_items_keep_rules(custom_rules: Seq<char>, block_list: Seq<char>, i: int)
    requires
        0 <= i < (lines_of(custom_rules) + lines_of(block_list)).len(),
        is_rule(trimmed((lines_of(custom_rules) + lines_of(block_list))[i])),
    ensures
        rule_items(custom_rules, block_list).contains(
            quoted(trimmed((lines_of(custom_rules) + lines_of(block_list))[i])),
        ),
{
    lemma_rules_from_keeps(lines_of(custom_rules) + lines_of(block_list), i);
}

proof fn lemma_rules_from_keeps(all: Seq<Seq<char>>, i: int)
    requires
        0 <= i < all.len(),
        is_rule(trimmed(all[i])),
    ensures
        rules_from(all).contains(quoted(trimmed(all[i]))),
    decreases all.len(),
{
    let before = rules_from(all.drop_last());
    let wanted = quoted(trimmed(all[i]));
    if i == all.len() - 1 {
        assert(rules_from(all) == before + seq![wanted]);
        assert(rules_from(all)[before.len() as int] == wanted);
    } else {
        assert(all.drop_last()[i] == all[i]);
        lemma_rules_from_keeps(all.drop_last(), i);
        let k = choose|k: int| 0 <= k < before.len() && before[k] == wanted;
        if is_rule(trimmed(all.last())) {
            assert(rules_from(all) == before + seq![quoted(trimmed(all.last()))]);
        } else {
            assert(rules_from(all) == before);
        }
        assert(rules_from(all)[k] == wanted);
    }
}

/// Tests whether a script defines the entry point.
pub fn validate_pac(pac_content: &str) -> (valid: bool)
    ensures
        valid == is_valid_pac(pac_content@),
{
    let content = chars_of(pac_content);
    let marker = chars_of("function FindProxyForURL");
    contains(&content, &marker)
}

/// Collects the rule array elements of the given lines.
fn collect_rules(all: &Vec<Vec<char>>) -> (items: Vec<Vec<char>>)
    ensures
        texts(items@) == rules_from(texts(all@)),
{
    let ghost f = |l: Seq<char>| rule_of(l);
    let mut items: Vec<Vec<char>> = Vec::new();
    let mut i: usize = 0;
    assert(texts(items@) =~= texts(all@).take(0).filter_map(f));
    while i < all.len()
        invariant
            i <= all.len(),
            f == (|l: Seq<char>| rule_of(l)),
            texts(items@) == texts(all@).take(i as int).filter_map(f),
        decreases all.len() - i,
    {
        let ghost before = texts(items@);
        let t = trim(&all[i]);
        proof {
            texts(all@).lemma_filter_map_take_succ(f, i as int);
        }
        if t.len() > 0 && !starts_with_char(&t, '!') && !starts_with_char(&t, '[') {
            let mut q: Vec<char> = Vec::new();
            q.push('"');
            extend_chars(&mut q, &t);
            q.push('"');
            assert(q@ =~= quoted(t@));
            items.push(q);
            assert(texts(items@) =~= before + seq![quoted(t@)]);
        } else {
            assert(texts(items@) =~= before + Seq::<Seq<char>>::empty());
        }
        i += 1;
    }
    assert(texts(all@).take(all.len() as int) =~= texts(all@));
    items
}

/// Fills the template in: merges the custom rules with the block list,
/// drops blank lines, comments and section headers, and substitutes the rule
/// array and the two ports. Fails when the result lacks the entry point.
pub fn generate_pac(
    custom_rules: &str,
    block_list: &str,
    template: &str,
    http_port: u16,
    socks_port: u16,
) -> (result: Result<String, PacError>)
    ensures
        match result {
            Ok(text) => {
                &&& text@ == pac_text(custom_rules@, block_list@, template@, http_port, socks_port)
                &&& is_valid_pac(text@)
            },
            Err(e) => {
                &&& e == PacError::InvalidData
                &&& !is_valid_pac(
                    pac_text(custom_rules@, block_list@, template@, http_port, socks_port),
                )
            },
        },
{
    let custom = chars_of(custom_rules);
    let block = chars_of(block_list);
    let mut all = lines(&custom);
    let mut rest = lines(&block);
    let ghost first = texts(all@);
    let ghost second = texts(rest@);
    all.append(&mut rest);
    assert(texts(all@) =~= first + second);
    let items = collect_rules(&all);
    let mut sep: Vec<char> = Vec::new();
    sep.push(',');
    sep.push('\n');
    assert(sep@ =~= seq![',', '\n']);
    let body = join(&items, &sep);
    let mut array: Vec<char> = Vec::new();
    array.push('[');
    array.push('\n');
    extend_chars(&mut array, &body);
    array.push('\n');
    array.push(']');
    assert(array@ =~= rules_array(custom_rules@, block_list@));

    let page = chars_of(template);
    let with_rules = replace(&page, &chars_of("__RULES__"), &array);
    let with_http = replace(
        &with_rules,
        &chars_of("__HTTP__PORT__"),
        &decimal_chars(http_port as u64),
    );
    let content = replace(
        &with_http,
        &chars_of("__SOCKS5__PORT__"),
        &decimal_chars(socks_port as u64),
    );
    let marker = chars_of("function FindProxyForURL");
    if contains(&content, &marker) {
        Ok(string_of(&content))
    } else {
        Err(PacError::InvalidData)
    }
}

} // verus!
