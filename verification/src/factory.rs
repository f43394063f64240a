//! Building tools from modules, and servers from tools.

use crate::approval_bridge::{self, ApprovalBridge};
use crate::async_task_bridge::{self, AsyncTaskBridge};
use crate::ids;
use crate::json::{self, Entries, Json, JsonObject, JsonView};
use crate::modules::{self, ModuleAnnotations, ModuleDescriptor};
use crate::router::{self, ContentItem, ContentView};
use crate::server::{self, ConfigView, FactoryError, MCPServer, MCPServerConfig, ServerView};
use crate::text;
use crate::types::{
    self, AnnotationsView, CallToolResult, InitializationOptions, TextContent, TextView, Tool,
    ToolAnnotations, ToolView,
};
use vstd::prelude::*;

verus! {

/// A step of a trace in short: its name, its duration, and why it was skipped, as far as it says.
pub open spec fn step_summary(step: JsonView) -> JsonView {
    JsonView::object().with_opt("name"@, types::text_opt_view(json::text_in(step.get("name"@)))).with_opt(
        "duration_ms"@,
        step.get("duration_ms"@),
    ).with_opt(
        "skip_reason"@,
        match step.get("skip_reason"@) {
            Some(reason) => if reason is Null {
                None
            } else {
                Some(reason)
            },
            None => None,
        },
    )
}

/// The steps of a trace.
pub open spec fn trace_steps(trace: JsonView) -> Seq<JsonView> {
    match trace.get("steps"@) {
        Some(JsonView::Array(steps)) => steps,
        _ => Seq::empty(),
    }
}

/// The steps of a trace in short.
pub open spec fn step_summaries(steps: Seq<JsonView>) -> Seq<JsonView> {
    steps.map_values(|step: JsonView| step_summary(step))
}

/// A trace in short.
pub open spec fn trace_summary(trace: JsonView) -> JsonView {
    let steps = step_summaries(trace_steps(trace));
    JsonView::object().with("step_count"@, JsonView::integer(steps.len() as int)).with(
        "steps"@,
        JsonView::Array(steps),
    )
}

fn summarize_step(step: &Json) -> (json: Json)
    ensures
        json@ == step_summary(step@),
{
    let reason = match step.get("skip_reason") {
        Some(reason) => {
            if reason.is_null() {
                None
            } else {
                Some(reason.clone())
            }
        },
        None => None,
    };
    Json::object().with_opt("name", types::text_opt_json(json::text_of(step.get("name")))).with_opt(
        "duration_ms",
        types::copy_ref(step.get("duration_ms")),
    ).with_opt("skip_reason", reason)
}

/// The trace in short.
pub fn summarize_trace(trace: &Json) -> (json: Json)
    ensures
        json@ == trace_summary(trace@),
{
    let mut summaries: Vec<Json> = Vec::new();
    let ghost steps = trace_steps(trace@);
    match trace.get("steps") {
        Some(Json::Array(items)) => {
            let mut i: usize = 0;
            assert(steps.len() == items.len());
            assert(forall|j: int| 0 <= j < items.len() ==> steps[j] == (#[trigger] items@[j])@);
            while i < items.len()
                invariant
                    i <= items.len(),
                    summaries.len() == i,
                    steps.len() == items.len(),
                    forall|j: int| 0 <= j < items.len() ==> steps[j] == (#[trigger] items@[j])@,
                    forall|j: int|
                        0 <= j < i ==> (#[trigger] summaries@[j])@ == step_summary(steps[j]),
                decreases items.len() - i,
            {
                summaries.push(summarize_step(&items[i]));
                i = i + 1;
            }
        },
        _ => {},
    }
    assert(json::views(summaries@) =~= step_summaries(steps));
    let n: u64 = summaries.len() as u64;
    Json::object().with("step_count", Json::unsigned(n)).with("steps", Json::array(summaries))
}

/// `text` cut at each hyphen.
pub open spec fn words(s: Seq<char>) -> Seq<Seq<char>>
    decreases s.len(),
{
    if s.len() == 0 {
        seq![Seq::empty()]
    } else {
        let before = words(s.drop_last());
        if s.last() == '-' {
            before.push(Seq::empty())
        } else {
            before.drop_last().push(before.last().push(s.last()))
        }
    }
}

/// The capital form of a character that is not ASCII, as `char::to_uppercase` gives it.
pub uninterp spec fn upper(c: char) -> Seq<char>;

/// The capital form of a character: of a small ASCII letter the capital one, of any other ASCII
/// character itself.
pub open spec fn capital(c: char) -> Seq<char> {
    if 'a' <= c && c <= 'z' {
        seq![(c as int - 32) as char]
    } else if c as int <= 127 {
        seq![c]
    } else {
        upper(c)
    }
}

/// `char::to_uppercase`, collected. What it gives depends on the character alone: of a small ASCII
/// letter the capital one, of any other ASCII character itself.
#[verifier::external_body]
fn to_upper(c: char) -> (s: String)
    ensures
        c as int > 127 ==> s@ == upper(c),
        'a' <= c && c <= 'z' ==> s@ == seq![(c as int - 32) as char],
        c as int <= 127 && !('a' <= c && c <= 'z') ==> s@ == seq![c],
{
    c.to_uppercase().collect()
}

/// A word with its first character made a capital.
pub open spec fn capitalized(word: Seq<char>) -> Seq<char> {
    if word.len() == 0 {
        word
    } else {
        capital(word[0]) + word.skip(1)
    }
}

/// The key without the prefix that marks it.
pub open spec fn bare_key(key: Seq<char>) -> Seq<char> {
    if text::has_prefix(key, "x-"@) {
        key.skip("x-"@.len() as int)
    } else {
        key
    }
}

/// The label for a key: its words, capitalized, with spaces between them.
pub open spec fn intent_label(key: Seq<char>) -> Seq<char> {
    text::joined(words(bare_key(key)).map_values(|word: Seq<char>| capitalized(word)), " "@)
}

fn split_words(s: &str) -> (r: Vec<String>)
    ensures
        text::texts(r@) == words(s@),
{
    let chars = text::characters(s);
    let mut done: Vec<String> = Vec::new();
    let mut current = String::new();
    let mut i: usize = 0;
    assert(text::texts(done@).push(current@) =~= words(s@.take(0)));
    while i < chars.len()
        invariant
            i <= chars.len(),
            chars@ == s@,
            text::texts(done@).push(current@) == words(s@.take(i as int)),
        decreases chars.len() - i,
    {
        let c = chars[i];
        let ghost before = text::texts(done@).push(current@);
        let ghost finished = text::texts(done@);
        let ghost word = current@;
        assert(s@.take(i + 1).drop_last() =~= s@.take(i as int));
        if c == '-' {
            done.push(current);
            assert(text::texts(done@) =~= before);
            current = String::new();
            assert(current@ =~= Seq::<char>::empty());
        } else {
            current.push(c);
            assert(before.drop_last() =~= finished);
            assert(before.last() == word);
        }
        i = i + 1;
    }
    assert(s@.take(s@.len() as int) =~= s@);
    let ghost all = text::texts(done@).push(current@);
    done.push(current);
    assert(text::texts(done@) =~= all);
    done
}

/// The label for `key`.
pub fn format_intent_label(key: &str) -> (label: String)
    ensures
        label@ == intent_label(key@),
{
    let bare = match text::strip_prefix(key, "x-") {
        Some(rest) => rest,
        None => key,
    };
    let parts = split_words(bare);
    let mut capitals: Vec<String> = Vec::new();
    let ghost all = words(bare_key(key@));
    let mut i: usize = 0;
    while i < parts.len()
        invariant
            i <= parts.len(),
            all == text::texts(parts@),
            capitals.len() == i,
            forall|j: int| 0 <= j < i ==> (#[trigger] capitals@[j])@ == capitalized(all[j]),
        decreases parts.len() - i,
    {
        let word = parts[i].as_str();
        assert(word@ == all[i as int]);
        if word.is_empty() {
            capitals.push(String::new());
            assert(capitals@[i as int]@ =~= capitalized(all[i as int]));
        } else {
            let n: usize = word.unicode_len();
            let rest = word.substring_char(1, n);
            assert(rest@ =~= word@.skip(1));
            capitals.push(to_upper(word.get_char(0)).concat(rest));
        }
        i = i + 1;
    }
    assert(text::texts(capitals@) =~= all.map_values(|word: Seq<char>| capitalized(word)));
    text::join(&capitals, " ")
}

/// How often a character occurs in a text.
pub open spec fn occurrences(s: Seq<char>, c: char) -> nat
    decreases s.len(),
{
    if s.len() == 0 {
        0
    } else {
        occurrences(s.drop_last(), c) + if s.last() == c {
            1nat
        } else {
            0nat
        }
    }
}

/// Where a word begins with a character that is not ASCII, the capital form of that holds no hyphens
/// and no spaces.
pub open spec fn plain_capital(word: Seq<char>) -> bool {
    word.len() > 0 && word[0] as int > 127 ==> occurrences(upper(word[0]), '-') == 0 && occurrences(
        upper(word[0]),
        ' ',
    ) == 0
}

proof fn lemma_occurrences_of_both(a: Seq<char>, b: Seq<char>, c: char)
    ensures
        occurrences(a + b, c) == occurrences(a, c) + occurrences(b, c),
    decreases b.len(),
{
    if b.len() == 0 {
        assert(a + b =~= a);
    } else {
        assert((a + b).drop_last() =~= a + b.drop_last());
        lemma_occurrences_of_both(a, b.drop_last(), c);
    }
}

proof fn lemma_occurrence(s: Seq<char>, c: char, i: int)
    requires
        0 <= i < s.len(),
        s[i] == c,
    ensures
        occurrences(s, c) > 0,
    decreases s.len(),
{
    if i < s.len() - 1 {
        lemma_occurrence(s.drop_last(), c, i);
    }
}

/// There is one word more than there are hyphens, no word has a hyphen, and no word has a character
/// that the text has not.
proof fn lemma_words(s: Seq<char>)
    ensures
        words(s).len() == occurrences(s, '-') + 1,
        forall|i: int, j: int|
            0 <= i < words(s).len() && 0 <= j < words(s)[i].len() ==> (
            #[trigger] words(s)[i][j]) != '-' && s.contains(words(s)[i][j]),
    decreases s.len(),
{
    if s.len() > 0 {
        let rest = s.drop_last();
        let before = words(rest);
        lemma_words(rest);
        assert forall|c: char| rest.contains(c) implies s.contains(c) by {
            let k = choose|k: int| 0 <= k < rest.len() && rest[k] == c;
            assert(s[k] == c);
        }
        assert(s[s.len() - 1] == s.last());
        assert forall|i: int, j: int|
            0 <= i < words(s).len() && 0 <= j < words(s)[i].len() implies (
        #[trigger] words(s)[i][j]) != '-' && s.contains(words(s)[i][j]) by {
            if i < before.len() - 1 {
                assert(words(s)[i] == before[i]);
                assert(before[i][j] != '-' && rest.contains(before[i][j]));
            } else if s.last() != '-' {
                if j < before.last().len() {
                    assert(before[i][j] != '-' && rest.contains(before[i][j]));
                    assert(words(s)[i][j] == before[i][j]);
                }
            } else if i == before.len() - 1 {
                assert(words(s)[i] == before[i]);
                assert(before[i][j] != '-' && rest.contains(before[i][j]));
            }
        }
    }
}

proof fn lemma_none(s: Seq<char>, c: char)
    requires
        forall|i: int| 0 <= i < s.len() ==> #[trigger] s[i] != c,
    ensures
        occurrences(s, c) == 0,
    decreases s.len(),
{
    if s.len() > 0 {
        lemma_none(s.drop_last(), c);
    }
}

/// A capitalized word has a hyphen or a space only where the word has.
proof fn lemma_capitalized(word: Seq<char>, c: char)
    requires
        c == '-' || c == ' ',
        forall|i: int| 0 <= i < word.len() ==> #[trigger] word[i] != c,
        plain_capital(word),
    ensures
        occurrences(capitalized(word), c) == 0,
{
    lemma_none(word, c);
    if word.len() > 0 {
        lemma_occurrences_of_both(capital(word[0]), word.skip(1), c);
        lemma_none(word.skip(1), c);
        if word[0] as int <= 127 {
            lemma_none(capital(word[0]), c);
        }
    }
}

proof fn lemma_occurrences_joined(parts: Seq<Seq<char>>, separator: Seq<char>, c: char)
    requires
        parts.len() > 0,
        forall|i: int| 0 <= i < parts.len() ==> occurrences(#[trigger] parts[i], c) == 0,
    ensures
        occurrences(text::joined(parts, separator), c) == (parts.len() - 1) * occurrences(
            separator,
            c,
        ),
    decreases parts.len(),
{
    let k = occurrences(separator, c) as int;
    if parts.len() == 1 {
        assert(occurrences(parts[0], c) == 0);
        assert((parts.len() - 1) * k == 0) by (nonlinear_arith)
            requires
                parts.len() == 1,
        ;
    } else {
        let rest = parts.drop_last();
        lemma_occurrences_joined(rest, separator, c);
        let head = text::joined(rest, separator);
        lemma_occurrences_of_both(head, separator, c);
        lemma_occurrences_of_both(head + separator, parts.last(), c);
        assert(occurrences(parts[parts.len() - 1], c) == 0);
        let n = parts.len() as int;
        assert((n - 2) * k + k == (n - 1) * k) by (nonlinear_arith);
    }
}

/// A prefix that marks a key leaves no trace in its label.
pub proof fn law_labels_have_no_prefix(key: Seq<char>)
    requires
        !text::has_prefix(key, "x-"@),
    ensures
        intent_label("x-"@ + key) == intent_label(key),
{
    let marked = "x-"@ + key;
    assert(marked.take("x-"@.len() as int) =~= "x-"@);
    assert(marked.skip("x-"@.len() as int) =~= key);
}

/// A text with a space in place of each hyphen.
pub open spec fn spaced(s: Seq<char>) -> Seq<char> {
    s.map_values(
        |c: char|
            if c == '-' {
                ' '
            } else {
                c
            },
    )
}

proof fn lemma_spaced(s: Seq<char>)
    ensures
        words(s).len() > 0,
        text::joined(words(s), " "@) == spaced(s),
    decreases s.len(),
{
    reveal_strlit(" ");
    let all = words(s);
    if s.len() == 0 {
        assert(text::joined(all, " "@) =~= spaced(s));
    } else {
        let rest = s.drop_last();
        let before = words(rest);
        lemma_spaced(rest);
        assert(spaced(s) =~= spaced(rest).push(spaced(s).last()));
        if s.last() == '-' {
            assert(all.drop_last() =~= before);
            assert(text::joined(all, " "@) =~= spaced(s));
        } else {
            assert(all.drop_last() =~= before.drop_last());
            assert(text::joined(all, " "@) =~= text::joined(before, " "@).push(s.last()));
        }
    }
}

/// A label is the key with a space in place of each hyphen, cut into words where the hyphens stood,
/// and each word capitalized.
pub proof fn law_labels_are_spaced_and_capitalized(key: Seq<char>)
    ensures
        text::joined(words(bare_key(key)), " "@) == spaced(bare_key(key)),
        words(bare_key(key)).len() == occurrences(bare_key(key), '-') + 1,
        forall|i: int|
            0 <= i < words(bare_key(key)).len() ==> occurrences(
                #[trigger] words(bare_key(key))[i],
                '-',
            ) == 0,
        intent_label(key) == text::joined(
            words(bare_key(key)).map_values(|word: Seq<char>| capitalized(word)),
            " "@,
        ),
{
    let bare = bare_key(key);
    lemma_spaced(bare);
    lemma_words(bare);
    assert forall|i: int| 0 <= i < words(bare).len() implies occurrences(
        #[trigger] words(bare)[i],
        '-',
    ) == 0 by {
        lemma_none(words(bare)[i], '-');
    }
}

/// A label has no hyphen, and, where the key has no space, exactly one space for each hyphen of the
/// key. The capital forms that the words begin with must bring in neither, where they are not those
/// of ASCII characters.
pub proof fn law_hyphens_become_spaces(key: Seq<char>)
    requires
        forall|i: int|
            0 <= i < words(bare_key(key)).len() ==> plain_capital(
                #[trigger] words(bare_key(key))[i],
            ),
    ensures
        occurrences(intent_label(key), '-') == 0,
        occurrences(bare_key(key), ' ') == 0 ==> occurrences(intent_label(key), ' ')
            == occurrences(bare_key(key), '-'),
{
    let bare = bare_key(key);
    let all = words(bare);
    let parts = all.map_values(|word: Seq<char>| capitalized(word));
    lemma_words(bare);
    reveal_strlit(" ");
    assert forall|i: int| 0 <= i < parts.len() implies occurrences(#[trigger] parts[i], '-')
        == 0 by {
        lemma_capitalized(all[i], '-');
    }
    lemma_occurrences_joined(parts, " "@, '-');
    lemma_none(" "@, '-');
    assert((parts.len() - 1) * 0 == 0);
    if occurrences(bare, ' ') == 0 {
        assert forall|i: int| 0 <= i < parts.len() implies occurrences(#[trigger] parts[i], ' ')
            == 0 by {
            assert forall|j: int| 0 <= j < all[i].len() implies #[trigger] all[i][j] != ' ' by {
                if all[i][j] == ' ' {
                    let k = choose|k: int| 0 <= k < bare.len() && bare[k] == all[i][j];
                    lemma_occurrence(bare, ' ', k);
                }
            }
            lemma_capitalized(all[i], ' ');
        }
        lemma_occurrences_joined(parts, " "@, ' ');
        assert(" "@.drop_last() =~= Seq::<char>::empty());
        reveal_with_fuel(occurrences, 2);
        let k = occurrences(" "@, ' ') as int;
        let n = parts.len() as int;
        assert(k == 1);
        assert((n - 1) * k == n - 1) by (nonlinear_arith)
            requires
                k == 1,
        ;
    }
}

/// The keys whose texts tell an agent when and how to use a tool.
pub open spec fn intent_keys() -> Seq<Seq<char>> {
    seq!["x-when-to-use"@, "x-when-not-to-use"@, "x-common-mistakes"@, "x-workflow-hints"@]
}

/// What the metadata says under a key, where it is a text that is not empty.
pub open spec fn intent_at(metadata: Entries, key: Seq<char>) -> Option<Seq<char>> {
    match json::text_in(json::lookup(metadata, key)) {
        Some(s) => if s.len() > 0 {
            Some(s)
        } else {
            None
        },
        None => None,
    }
}

/// The lines that the metadata adds under `keys`, in the order of the keys.
pub open spec fn intent_lines(metadata: Entries, keys: Seq<Seq<char>>) -> Seq<Seq<char>>
    decreases keys.len(),
{
    if keys.len() == 0 {
        Seq::empty()
    } else {
        let before = intent_lines(metadata, keys.drop_last());
        match intent_at(metadata, keys.last()) {
            Some(s) => before.push(intent_label(keys.last()) + ": "@ + s),
            None => before,
        }
    }
}

/// A description with what the metadata adds to it.
pub open spec fn enriched(base: Seq<char>, metadata: Option<Entries>) -> Seq<char> {
    match metadata {
        Some(entries) => {
            let lines = intent_lines(entries, intent_keys());
            if lines.len() == 0 {
                base
            } else {
                base + "\n\n"@ + text::joined(lines, "\n"@)
            }
        },
        None => base,
    }
}

fn add_intent(lines: &mut Vec<String>, metadata: &JsonObject, key: &str)
    ensures
        text::texts(final(lines)@) == (match intent_at(metadata@, key@) {
            Some(s) => text::texts(old(lines)@).push(intent_label(key@) + ": "@ + s),
            None => text::texts(old(lines)@),
        }),
{
    if let Some(s) = json::text_of(metadata.get(key)) {
        if !s.is_empty() {
            let ghost before = text::texts(lines@);
            let line = format_intent_label(key).concat(": ").concat(s);
            lines.push(line);
            assert(text::texts(lines@) =~= before.push(line@));
        }
    }
}

/// `base` with what the metadata adds to it.
pub fn enrich_description(base: &str, metadata: Option<&JsonObject>) -> (s: String)
    ensures
        s@ == enriched(
            base@,
            match metadata {
                Some(entries) => Some(entries@),
                None => None,
            },
        ),
{
    let metadata = match metadata {
        Some(metadata) => metadata,
        None => {
            return base.to_string();
        },
    };
    let mut lines: Vec<String> = Vec::new();
    let ghost keys = intent_keys();
    let ghost m = metadata@;
    proof {
        reveal_with_fuel(intent_lines, 5);
        assert(keys.drop_last() =~= keys.take(3));
        assert(keys.take(3).drop_last() =~= keys.take(2));
        assert(keys.take(2).drop_last() =~= keys.take(1));
        assert(keys.take(1).drop_last() =~= keys.take(0));
        assert(text::texts(lines@) =~= intent_lines(m, keys.take(0)));
    }
    add_intent(&mut lines, metadata, "x-when-to-use");
    assert(text::texts(lines@) == intent_lines(m, keys.take(1)));
    add_intent(&mut lines, metadata, "x-when-not-to-use");
    assert(text::texts(lines@) == intent_lines(m, keys.take(2)));
    add_intent(&mut lines, metadata, "x-common-mistakes");
    assert(text::texts(lines@) == intent_lines(m, keys.take(3)));
    add_intent(&mut lines, metadata, "x-workflow-hints");
    assert(text::texts(lines@) == intent_lines(m, keys));
    assert(text::texts(lines@).len() == lines@.len());
    if lines.len() == 0 {
        base.to_string()
    } else {
        base.to_string().concat("\n\n").concat(text::join(&lines, "\n").as_str())
    }
}

/// A description to which the metadata adds nothing stays as it is.
pub proof fn law_no_intents_no_change(base: Seq<char>, metadata: Entries)
    requires
        forall|i: int|
            0 <= i < intent_keys().len() ==> intent_at(metadata, #[trigger] intent_keys()[i]) is None,
    ensures
        enriched(base, Some(metadata)) == base,
        enriched(base, None) == base,
{
    let keys = intent_keys();
    reveal_with_fuel(intent_lines, 5);
    assert(keys.drop_last() =~= keys.take(3));
    assert(keys.take(3).drop_last() =~= keys.take(2));
    assert(keys.take(2).drop_last() =~= keys.take(1));
    assert(keys.take(1).drop_last() =~= keys.take(0));
    assert(intent_at(metadata, keys[0]) is None);
    assert(intent_at(metadata, keys[1]) is None);
    assert(intent_at(metadata, keys[2]) is None);
    assert(intent_at(metadata, keys[3]) is None);
}

/// An enriched description begins with the plain one.
pub proof fn law_enriched_begins_with_base(base: Seq<char>, metadata: Option<Entries>)
    ensures
        text::has_prefix(enriched(base, metadata), base),
{
    assert(base.take(base.len() as int) =~= base);
    if let Some(entries) = metadata {
        let lines = intent_lines(entries, intent_keys());
        let whole = base + "\n\n"@ + text::joined(lines, "\n"@);
        assert(whole.take(base.len() as int) =~= base);
    }
}

/// What the annotations of a module come to in the protocol.
#[derive(Debug)]
pub struct McpAnnotations {
    pub title: Option<String>,
    pub read_only_hint: bool,
    pub destructive_hint: bool,
    pub idempotent_hint: bool,
    pub open_world_hint: bool,
}

/// What a tool's metadata says of how it is called.
#[derive(Debug, Clone, Copy, PartialEq, Eq, Structural)]
pub struct ToolMeta {
    /// Whether somebody has to approve each call.
    pub requires_approval: bool,
    /// Whether results are streamed.
    pub streaming: bool,
}

/// Turns the annotations of modules into those of tools.
pub struct ToolAnnotationBuilder;

/// What a reference to annotations refers to.
pub open spec fn given(annotations: Option<&ModuleAnnotations>) -> Option<ModuleAnnotations> {
    match annotations {
        Some(a) => Some(*a),
        None => None,
    }
}

/// The flags of a tool's metadata.
pub open spec fn tool_meta(annotations: Option<ModuleAnnotations>) -> ToolMeta {
    match annotations {
        Some(a) => ToolMeta { requires_approval: a.requires_approval, streaming: a.streaming },
        None => ToolMeta { requires_approval: false, streaming: false },
    }
}

/// The metadata of a tool: the flags that are set.
pub open spec fn meta_view(meta: ToolMeta) -> JsonView {
    let approval = if meta.requires_approval {
        JsonView::object().with("requiresApproval"@, JsonView::Bool(true))
    } else {
        JsonView::object()
    };
    if meta.streaming {
        approval.with("streaming"@, JsonView::Bool(true))
    } else {
        approval
    }
}

/// The hints that annotations give. A module without annotations is taken to do no harm and to
/// reach the outside world.
pub open spec fn hints(annotations: Option<ModuleAnnotations>) -> AnnotationsView {
    match annotations {
        Some(a) => AnnotationsView {
            title: None,
            read_only_hint: Some(a.readonly),
            destructive_hint: Some(a.destructive),
            idempotent_hint: Some(a.idempotent),
            open_world_hint: Some(a.open_world),
        },
        None => AnnotationsView {
            title: None,
            read_only_hint: Some(false),
            destructive_hint: Some(false),
            idempotent_hint: Some(false),
            open_world_hint: Some(true),
        },
    }
}

impl ToolAnnotationBuilder {
    /// The hints that annotations give.
    pub fn build_annotations(annotations: Option<&ModuleAnnotations>) -> (r: McpAnnotations)
        ensures
            r.title is None,
            Some(r.read_only_hint) == hints(given(annotations)).read_only_hint,
            Some(r.destructive_hint) == hints(given(annotations)).destructive_hint,
            Some(r.idempotent_hint) == hints(given(annotations)).idempotent_hint,
            Some(r.open_world_hint) == hints(given(annotations)).open_world_hint,
    {
        match annotations {
            Some(a) => McpAnnotations {
                title: None,
                read_only_hint: a.readonly,
                destructive_hint: a.destructive,
                idempotent_hint: a.idempotent,
                open_world_hint: a.open_world,
            },
            None => McpAnnotations {
                title: None,
                read_only_hint: false,
                destructive_hint: false,
                idempotent_hint: false,
                open_world_hint: true,
            },
        }
    }

    /// Whether results are streamed.
    pub fn is_streaming(annotations: Option<&ModuleAnnotations>) -> (r: bool)
        ensures
            r == tool_meta(given(annotations)).streaming,
    {
        match annotations {
            Some(a) => a.streaming,
            None => false,
        }
    }

    /// The flags of a tool's metadata.
    pub fn build_meta(annotations: Option<&ModuleAnnotations>) -> (meta: ToolMeta)
        ensures
            meta == tool_meta(given(annotations)),
    {
        let requires_approval = match annotations {
            Some(a) => a.requires_approval,
            None => false,
        };
        ToolMeta { requires_approval, streaming: Self::is_streaming(annotations) }
    }

    /// The metadata of a tool.
    pub fn build_meta_value(annotations: Option<&ModuleAnnotations>) -> (json: Json)
        ensures
            json@ == meta_view(tool_meta(given(annotations))),
    {
        let meta = Self::build_meta(annotations);
        let mut json = Json::object();
        if meta.requires_approval {
            json = json.with("requiresApproval", Json::Bool(true));
        }
        if meta.streaming {
            json = json.with("streaming", Json::Bool(true));
        }
        json
    }
}

/// What a module's schemas and its description come to, where that is worked out elsewhere.
pub trait ToolAdapters {
    /// The schema of a tool's inputs for the schema of the module's, or why there is none.
    fn convert_input_schema(&self, schema: &Json) -> Result<Json, String>;

    /// A long description of the module.
    fn render_markdown(&self, descriptor: &ModuleDescriptor) -> String;
}

/// A registered module, and what its schema and its description come to.
#[derive(Debug)]
pub struct ModuleSource {
    pub module_id: String,
    /// The module; nothing where it could not be looked up.
    pub descriptor: Option<ModuleDescriptor>,
    /// The schema of the tool's inputs, or why there is none.
    pub input_schema: Result<Json, String>,
    /// A long description of the module.
    pub markdown: String,
}

/// The metadata of a tool, where it has any.
pub open spec fn meta_of(descriptor: ModuleDescriptor) -> Option<JsonView> {
    let meta = tool_meta(descriptor.annotations);
    if meta.requires_approval || meta.streaming {
        Some(meta_view(meta))
    } else {
        None
    }
}

/// The tool for a module.
pub open spec fn tool_for(
    descriptor: ModuleDescriptor,
    input_schema: JsonView,
    description: Seq<char>,
    name_override: Option<Seq<char>>,
) -> ToolView {
    ToolView {
        name: match name_override {
            Some(name) => name,
            None => descriptor.module_id@,
        },
        description: enriched(description, Some(descriptor.metadata@)),
        input_schema,
        annotations: Some(hints(descriptor.annotations)),
        meta: meta_of(descriptor),
    }
}

/// How a module asks to be shown in this protocol: by its own settings, or else by those in its
/// metadata.
pub open spec fn overlay(descriptor: ModuleDescriptor) -> Option<JsonView> {
    json::get_in(
        match descriptor.display {
            Some(display) => Some(display@),
            None => json::lookup(descriptor.metadata@, "display"@),
        },
        "mcp"@,
    )
}

/// The description that a module is shown with: the one that it asks for, or else the long one
/// where long ones are wanted, or else its own; and the guidance that it asks for.
pub open spec fn shown_description(
    rich: bool,
    descriptor: ModuleDescriptor,
    markdown: Seq<char>,
) -> Seq<char> {
    let description = match json::text_in(json::get_in(overlay(descriptor), "description"@)) {
        Some(s) => s,
        None => if rich {
            markdown
        } else {
            descriptor.description@
        },
    };
    match json::text_in(json::get_in(overlay(descriptor), "guidance"@)) {
        Some(guidance) => description + "\n\nGuidance: "@ + guidance,
        None => description,
    }
}

/// What becomes of a module among the tools.
pub enum SourceView {
    /// The module is refused, for its id is reserved.
    Refused,
    /// There is no tool for the module.
    Skipped,
    /// The tool for the module.
    Built(ToolView),
}

/// What becomes of a module.
pub open spec fn built(rich: bool, source: ModuleSource) -> SourceView {
    if async_task_bridge::reserved(source.module_id@) {
        SourceView::Refused
    } else {
        match source.descriptor {
            None => SourceView::Skipped,
            Some(descriptor) => if async_task_bridge::reserved(descriptor.module_id@) {
                SourceView::Refused
            } else {
                match source.input_schema {
                    Err(_) => SourceView::Skipped,
                    Ok(schema) => SourceView::Built(
                        tool_for(
                            descriptor,
                            schema@,
                            shown_description(rich, descriptor, source.markdown@),
                            json::text_in(json::get_in(overlay(descriptor), "alias"@)),
                        ),
                    ),
                }
            },
        }
    }
}

/// The tools for modules, in their order, or the id of the first module that is refused.
pub open spec fn assembled(rich: bool, sources: Seq<ModuleSource>) -> Result<
    Seq<ToolView>,
    Seq<char>,
>
    decreases sources.len(),
{
    if sources.len() == 0 {
        Ok(Seq::empty())
    } else {
        match assembled(rich, sources.drop_last()) {
            Err(id) => Err(id),
            Ok(tools) => match built(rich, sources.last()) {
                SourceView::Refused => Err(sources.last().module_id@),
                SourceView::Skipped => Ok(tools),
                SourceView::Built(tool) => Ok(tools.push(tool)),
            },
        }
    }
}

/// The documentation of a module: the long text where there is one, or else its description; nothing
/// where both are empty.
pub open spec fn documentation(descriptor: ModuleDescriptor) -> Option<Seq<char>> {
    let chosen = match descriptor.documentation {
        Some(s) => if s@.len() > 0 {
            s@
        } else {
            descriptor.description@
        },
        None => descriptor.description@,
    };
    if chosen.len() > 0 {
        Some(chosen)
    } else {
        None
    }
}

/// Modules by their ids.
pub open spec fn named(modules: Seq<(String, ModuleDescriptor)>) -> Seq<
    (Seq<char>, ModuleDescriptor),
> {
    modules.map_values(|module: (String, ModuleDescriptor)| (module.0@, module.1))
}

/// The modules that were found, by their ids: an id for which none was found is left out.
pub open spec fn defined(ids: Seq<String>, found: Seq<Option<ModuleDescriptor>>) -> Seq<
    (Seq<char>, ModuleDescriptor),
>
    decreases ids.len(),
{
    if ids.len() == 0 {
        Seq::empty()
    } else {
        let before = defined(ids.drop_last(), found.drop_last());
        match found.last() {
            Some(descriptor) => before.push((ids.last()@, descriptor)),
            None => before,
        }
    }
}

/// The modules are those that the registry lists and has a definition of, in the order of the list.
pub open spec fn registered_modules(
    registry: &apcore::registry::Registry,
    modules: Seq<(Seq<char>, ModuleDescriptor)>,
) -> bool {
    exists|ids: Seq<String>, found: Seq<Option<ModuleDescriptor>>|
        modules::listed(registry, None, None, ids) && found.len() == ids.len() && (forall|i: int|
            0 <= i < ids.len() ==> modules::looked_up(registry, ids[i]@, #[trigger] found[i]))
            && modules == #[trigger] defined(ids, found)
}

/// The documentation of modules, by their ids.
pub open spec fn documents(modules: Seq<(Seq<char>, ModuleDescriptor)>) -> Entries
    decreases modules.len(),
{
    if modules.len() == 0 {
        json::no_entries()
    } else {
        let before = documents(modules.drop_last());
        match documentation(modules.last().1) {
            Some(s) => json::put(before, modules.last().0, JsonView::text(s)),
            None => before,
        }
    }
}

/// The text of the pieces of content that are texts.
pub open spec fn texts_of(items: Seq<ContentView>) -> Seq<TextView>
    decreases items.len(),
{
    if items.len() == 0 {
        Seq::empty()
    } else if items.last().content_type == "text"@ {
        texts_of(items.drop_last()).push(
            TextView {
                content_type: "text"@,
                text: match items.last().data.as_str() {
                    Some(s) => s,
                    None => Seq::empty(),
                },
            },
        )
    } else {
        texts_of(items.drop_last())
    }
}

/// The last trace among pieces of content, in short.
pub open spec fn trace_of(items: Seq<ContentView>) -> Option<JsonView>
    decreases items.len(),
{
    if items.len() == 0 {
        None
    } else if items.last().content_type == "trace"@ {
        Some(trace_summary(items.last().data))
    } else {
        trace_of(items.drop_last())
    }
}

/// The `traceparent` header that passes a trace on from the span `span`, where the trace's id is 32
/// hexadecimal digits.
pub open spec fn passed_on(trace_id: Option<Seq<char>>, span: Seq<char>) -> Option<JsonView> {
    match trace_id {
        Some(id) => if text::unhyphenated(id).len() == 32 && ids::hex_text(text::unhyphenated(id)) {
            Some(JsonView::text("00-"@ + text::unhyphenated(id) + "-"@ + span + "-01"@))
        } else {
            None
        },
        None => None,
    }
}

/// The metadata of a result: its trace and its origin, as far as they are known.
pub open spec fn result_meta(
    items: Seq<ContentView>,
    trace_id: Option<Seq<char>>,
    span: Seq<char>,
) -> JsonView {
    JsonView::object().with_opt("trace"@, trace_of(items)).with_opt(
        "traceparent"@,
        passed_on(trace_id, span),
    )
}

/// The result of a tool call in the protocol's form, in `result`.
pub open spec fn result_for(
    result: CallToolResult,
    items: Seq<ContentView>,
    is_error: bool,
    trace_id: Option<Seq<char>>,
    span: Seq<char>,
) -> bool {
    &&& types::text_views(result.content@) == texts_of(items)
    &&& result.is_error == is_error
    &&& match result.meta {
        Some(meta) => meta@ == result_meta(items, trace_id, span) && result_meta(
            items,
            trace_id,
            span,
        )->Object_0.len() > 0,
        None => result_meta(items, trace_id, span)->Object_0.len() == 0,
    }
}

/// The result of a tool call in the protocol's form, with `span` as the span that a trace is passed
/// on from.
pub fn tool_result_from(
    items: &Vec<ContentItem>,
    is_error: bool,
    trace_id: Option<&str>,
    span: &str,
) -> (result: CallToolResult)
    ensures
        result_for(
            result,
            router::content_views(items@),
            is_error,
            text::ref_view(trace_id),
            span@,
        ),
{
    let ghost all = router::content_views(items@);
    let mut content: Vec<TextContent> = Vec::new();
    let mut trace: Option<Json> = None;
    let mut i: usize = 0;
    assert(types::text_views(content@) =~= texts_of(all.take(0)));
    while i < items.len()
        invariant
            i <= items.len(),
            all == router::content_views(items@),
            types::text_views(content@) == texts_of(all.take(i as int)),
            json::opt_view(trace) == trace_of(all.take(i as int)),
        decreases items.len() - i,
    {
        let item = &items[i];
        let ghost before = types::text_views(content@);
        assert(all.take(i + 1).drop_last() =~= all.take(i as int));
        assert(all.take(i + 1).last() == item@);
        proof {
            reveal_strlit("text");
            reveal_strlit("trace");
            assert("text"@.len() != "trace"@.len());
        }
        if text::same(item.content_type.as_str(), "text") {
            let s = match item.data.as_str() {
                Some(s) => s.to_string(),
                None => {
                    let none = String::new();
                    assert(none@ =~= Seq::<char>::empty());
                    none
                },
            };
            content.push(TextContent::new(s.as_str()));
            assert(types::text_views(content@) =~= before.push(
                TextView { content_type: "text"@, text: s@ },
            ));
        } else if text::same(item.content_type.as_str(), "trace") {
            trace = Some(summarize_trace(&item.data));
        }
        i = i + 1;
    }
    assert(all.take(all.len() as int) =~= all);
    let traceparent = match trace_id {
        Some(id) => {
            let hex = text::remove_hyphens(id);
            if hex.as_str().unicode_len() == 32 && ids::is_hex(hex.as_str()) {
                Some(
                    Json::text(
                        "00-".to_string().concat(hex.as_str()).concat("-").concat(span).concat(
                            "-01",
                        ).as_str(),
                    ),
                )
            } else {
                None
            }
        },
        None => None,
    };
    let meta = Json::object().with_opt("trace", trace).with_opt("traceparent", traceparent);
    let empty = match &meta {
        Json::Object(object) => object.is_empty(),
        _ => true,
    };
    CallToolResult {
        content,
        is_error,
        meta: if empty {
            None
        } else {
            Some(meta)
        },
    }
}

/// The result of a tool call in the protocol's form. A trace is passed on from a fresh span.
pub fn tool_result(items: &Vec<ContentItem>, is_error: bool, trace_id: Option<&str>) -> (result:
    CallToolResult)
    ensures
        exists|span: Seq<char>|
            span.len() == 16 && ids::hex_text(span) && #[trigger] result_for(
                result,
                router::content_views(items@),
                is_error,
                text::ref_view(trace_id),
                span,
            ),
{
    let span = ids::fresh_span_id();
    tool_result_from(items, is_error, trace_id, span.as_str())
}

/// Builds tools and servers.
pub struct MCPServerFactory {
    rich_description: bool,
}

impl View for MCPServerFactory {
    type V = bool;

    /// Whether modules are shown with their long descriptions.
    closed spec fn view(&self) -> bool {
        self.rich_description
    }
}

impl Default for MCPServerFactory {
    fn default() -> (factory: MCPServerFactory)
        ensures
            !factory@,
    {
        MCPServerFactory { rich_description: false }
    }
}

impl MCPServerFactory {
    /// A factory that shows modules with their short descriptions.
    pub fn new() -> (factory: MCPServerFactory)
        ensures
            !factory@,
    {
        MCPServerFactory { rich_description: false }
    }

    /// A factory that shows modules with their long descriptions, or not.
    pub fn with_rich_description(rich_description: bool) -> (factory: MCPServerFactory)
        ensures
            factory@ == rich_description,
    {
        MCPServerFactory { rich_description }
    }

    /// Whether modules are shown with their long descriptions.
    pub fn rich_description(&self) -> (r: bool)
        ensures
            r == self@,
    {
        self.rich_description
    }

    /// There is nothing to prepare.
    pub fn prepare() -> (r: bool)
        ensures
            !r,
    {
        false
    }

    /// A server with this name, which has to have between 1 and 255 characters, and set up otherwise
    /// as servers are by default: it keeps no version.
    pub fn create_server(&self, name: &str, _version: &str) -> (r: Result<MCPServer, FactoryError>)
        ensures
            match r {
                Ok(server) => 1 <= name@.len() <= 255 && server@ == server::fresh_server(
                    server@.config,
                ) && server@.config@ == (ConfigView { name: name@, ..server::default_config() }),
                Err(FactoryError::InvalidName(n)) => !(1 <= name@.len() <= 255) && n
                    == name@.len(),
                Err(_) => false,
            },
    {
        let n: usize = name.unicode_len();
        if n == 0 || n > 255 {
            return Err(FactoryError::InvalidName(n));
        }
        let mut config = MCPServerConfig::default();
        config.name = name.to_string();
        Ok(MCPServer::new(config))
    }

    /// The tool for a module, where `input_schema` is what its schema comes to.
    pub fn build_tool(
        &self,
        descriptor: &ModuleDescriptor,
        description: &str,
        name_override: Option<&str>,
        input_schema: Result<Json, String>,
    ) -> (r: Result<Tool, FactoryError>)
        ensures
            match r {
                Ok(tool) => !async_task_bridge::reserved(descriptor.module_id@) && (
                input_schema matches Ok(schema) && tool@ == tool_for(
                    *descriptor,
                    schema@,
                    description@,
                    text::ref_view(name_override),
                )),
                Err(FactoryError::ReservedPrefix(id)) => async_task_bridge::reserved(
                    descriptor.module_id@,
                ) && id@ == descriptor.module_id@,
                Err(FactoryError::Other(reason)) => !async_task_bridge::reserved(
                    descriptor.module_id@,
                ) && (input_schema matches Err(why) && why@ == reason@),
                Err(_) => false,
            },
    {
        self.build_tool_with_registry(descriptor, description, name_override, None, input_schema)
    }

    /// The tool for a module, where `input_schema` is what its schema comes to. The registry is not
    /// consulted.
    pub fn build_tool_with_registry(
        &self,
        descriptor: &ModuleDescriptor,
        description: &str,
        name_override: Option<&str>,
        _registry: Option<&apcore::registry::Registry>,
        input_schema: Result<Json, String>,
    ) -> (r: Result<Tool, FactoryError>)
        ensures
            match r {
                Ok(tool) => !async_task_bridge::reserved(descriptor.module_id@) && (
                input_schema matches Ok(schema) && tool@ == tool_for(
                    *descriptor,
                    schema@,
                    description@,
                    text::ref_view(name_override),
                )),
                Err(FactoryError::ReservedPrefix(id)) => async_task_bridge::reserved(
                    descriptor.module_id@,
                ) && id@ == descriptor.module_id@,
                Err(FactoryError::Other(reason)) => !async_task_bridge::reserved(
                    descriptor.module_id@,
                ) && (input_schema matches Err(why) && why@ == reason@),
                Err(_) => false,
            },
    {
        if AsyncTaskBridge::is_reserved_id(descriptor.module_id.as_str()) {
            return Err(FactoryError::ReservedPrefix(descriptor.module_id.clone()));
        }
        let schema = match input_schema {
            Ok(schema) => schema,
            Err(reason) => {
                return Err(FactoryError::Other(reason));
            },
        };
        let annotations = match &descriptor.annotations {
            Some(annotations) => Some(annotations),
            None => None,
        };
        let hints = ToolAnnotationBuilder::build_annotations(annotations);
        let meta = ToolAnnotationBuilder::build_meta(annotations);
        let meta = if meta.requires_approval || meta.streaming {
            Some(ToolAnnotationBuilder::build_meta_value(annotations))
        } else {
            None
        };
        let name = match name_override {
            Some(name) => name.to_string(),
            None => descriptor.module_id.clone(),
        };
        Ok(
            Tool {
                name,
                description: enrich_description(description, Some(&descriptor.metadata)),
                input_schema: schema,
                annotations: Some(
                    ToolAnnotations {
                        title: hints.title,
                        read_only_hint: Some(hints.read_only_hint),
                        destructive_hint: Some(hints.destructive_hint),
                        idempotent_hint: Some(hints.idempotent_hint),
                        open_world_hint: Some(hints.open_world_hint),
                    },
                ),
                meta,
            },
        )
    }

    fn overlay<'a>(descriptor: &'a ModuleDescriptor) -> (r: Option<&'a Json>)
        ensures
            json::ref_view(r) == overlay(*descriptor),
    {
        let display = match &descriptor.display {
            Some(display) => Some(display),
            None => descriptor.metadata.get("display"),
        };
        json::member(display, "mcp")
    }

    fn shown_description(&self, descriptor: &ModuleDescriptor, markdown: &str) -> (s: String)
        ensures
            s@ == shown_description(self@, *descriptor, markdown@),
    {
        let overlay = Self::overlay(descriptor);
        let description = match json::text_of(json::member(overlay, "description")) {
            Some(s) => s.to_string(),
            None => {
                if self.rich_description {
                    markdown.to_string()
                } else {
                    descriptor.description.clone()
                }
            },
        };
        match json::text_of(json::member(overlay, "guidance")) {
            Some(guidance) => description.concat("\n\nGuidance: ").concat(guidance),
            None => description,
        }
    }

    /// The tools for modules, in their order. A module that cannot be looked up or has no schema is
    /// left out; one whose id is reserved is refused.
    pub fn assemble(&self, sources: Vec<ModuleSource>) -> (r: Result<Vec<Tool>, FactoryError>)
        ensures
            match r {
                Ok(tools) => assembled(self@, sources@) == Ok::<Seq<ToolView>, Seq<char>>(
                    types::tool_views(tools@),
                ),
                Err(FactoryError::ReservedPrefix(id)) => assembled(self@, sources@) == Err::<
                    Seq<ToolView>,
                    Seq<char>,
                >(id@),
                Err(_) => false,
            },
    {
        let ghost all = sources@;
        let mut tools: Vec<Tool> = Vec::new();
        assert(types::tool_views(tools@) =~= Seq::<ToolView>::empty());
        for source in it: sources
            invariant
                it.seq() == all,
                assembled(self@, all.take(it.index() as int)) == Ok::<Seq<ToolView>, Seq<char>>(
                    types::tool_views(tools@),
                ),
        {
            let ghost i = it.index() as int;
            let ghost before = types::tool_views(tools@);
            assert(all.take(i + 1).drop_last() =~= all.take(i));
            assert(all.take(i + 1).last() == source);
            let id = source.module_id.clone();
            if AsyncTaskBridge::is_reserved_id(id.as_str()) {
                proof {
                    lemma_refused(self@, all, i);
                }
                return Err(FactoryError::ReservedPrefix(id));
            }
            if let Some(descriptor) = &source.descriptor {
                let description = self.shown_description(descriptor, source.markdown.as_str());
                let alias = json::text_of(json::member(Self::overlay(descriptor), "alias"));
                match self.build_tool_with_registry(
                    descriptor,
                    description.as_str(),
                    alias,
                    None,
                    source.input_schema,
                ) {
                    Ok(tool) => {
                        let ghost added = tool@;
                        tools.push(tool);
                        assert(types::tool_views(tools@) =~= before.push(added));
                    },
                    Err(FactoryError::ReservedPrefix(_)) => {
                        proof {
                            lemma_refused(self@, all, i);
                        }
                        return Err(FactoryError::ReservedPrefix(id));
                    },
                    Err(_) => {},
                }
            }
        }
        assert(all.take(all.len() as int) =~= all);
        Ok(tools)
    }

    /// The tools for the modules that are registered at the moment, carry all the tags and begin
    /// with the prefix.
    pub fn build_tools<A: ToolAdapters>(
        &self,
        registry: &apcore::registry::Registry,
        adapters: &A,
        tags: Option<&[&str]>,
        prefix: Option<&str>,
    ) -> (r: Result<Vec<Tool>, FactoryError>)
        ensures
            exists|sources: Seq<ModuleSource>|
                #![trigger assembled(self@, sources)]
                taken_from(self@, registry, adapters, tags, prefix, sources) && sources_listed(
                    sources,
                    text::ref_view(prefix),
                ) && match r {
                    Ok(tools) => assembled(self@, sources) == Ok::<Seq<ToolView>, Seq<char>>(
                        types::tool_views(tools@),
                    ),
                    Err(FactoryError::ReservedPrefix(id)) => assembled(self@, sources) == Err::<
                        Seq<ToolView>,
                        Seq<char>,
                    >(id@),
                    Err(_) => false,
                },
    {
        let ids = modules::list(registry, tags, prefix);
        let mut sources: Vec<ModuleSource> = Vec::new();
        let mut i: usize = 0;
        while i < ids.len()
            invariant
                i <= ids.len(),
                modules::ids_ascend(ids@),
                modules::ids_prefixed(ids@, text::ref_view(prefix)),
                sources.len() == i,
                forall|j: int| 0 <= j < i ==> (#[trigger] sources@[j]).module_id@ == ids@[j]@,
                forall|j: int|
                    0 <= j < i ==> source_taken(self@, registry, adapters, #[trigger] sources@[j]),
            decreases ids.len() - i,
        {
            let module_id = ids[i].clone();
            let descriptor = modules::definition(registry, module_id.as_str());
            let input_schema = match &descriptor {
                Some(d) => adapters.convert_input_schema(&d.input_schema),
                None => Err("no definition".to_string()),
            };
            let markdown = match &descriptor {
                Some(d) => {
                    if self.rich_description {
                        adapters.render_markdown(d)
                    } else {
                        String::new()
                    }
                },
                None => String::new(),
            };
            sources.push(ModuleSource { module_id, descriptor, input_schema, markdown });
            i = i + 1;
        }
        assert(modules::listed(registry, tags, prefix, ids@));
        assert(sources_listed(sources@, text::ref_view(prefix)));
        let ghost all = sources@;
        let r = self.assemble(sources);
        assert(assembled(self@, all) == assembled(self@, all));
        r
    }

    /// Offers `tools` on `server`.
    pub fn register_handlers(&self, server: &mut MCPServer, tools: Vec<Tool>)
        ensures
            final(server)@ == (ServerView {
                tools: Some(types::tool_views(tools@)),
                calls: true,
                ..old(server)@
            }),
    {
        server.set_tools(tools);
        server.set_tool_calls();
    }

    /// Adds the meta-tools for tasks to `tools`.
    pub fn append_meta_tools(tools: &mut Vec<Tool>)
        ensures
            types::tool_views(final(tools)@) == types::tool_views(old(tools)@)
                + async_task_bridge::task_tools(),
    {
        let ghost before = tools@;
        let mut meta = AsyncTaskBridge::build_meta_tools();
        let ghost added = meta@;
        tools.append(&mut meta);
        assert(types::tool_views(tools@) =~= types::tool_views(before) + types::tool_views(added));
    }

    /// Adds the meta-tool for approvals to `tools`.
    pub fn append_approval_meta_tools(tools: &mut Vec<Tool>)
        ensures
            types::tool_views(final(tools)@) == types::tool_views(old(tools)@).push(
                approval_bridge::check_tool(),
            ),
    {
        let ghost before = tools@;
        let mut meta = ApprovalBridge::build_meta_tools();
        let ghost added = meta@;
        tools.append(&mut meta);
        assert(types::tool_views(tools@) =~= types::tool_views(before) + types::tool_views(added));
        assert(types::tool_views(tools@) =~= types::tool_views(before).push(
            approval_bridge::check_tool(),
        ));
    }

    /// The documentation of a module.
    pub fn documentation(descriptor: &ModuleDescriptor) -> (r: Option<String>)
        ensures
            text::opt_view(r) == documentation(*descriptor),
    {
        if let Some(s) = &descriptor.documentation {
            if !s.as_str().is_empty() {
                return Some(s.clone());
            }
        }
        if descriptor.description.as_str().is_empty() {
            None
        } else {
            Some(descriptor.description.clone())
        }
    }

    /// Serves the documentation of `modules` on `server`.
    pub fn serve_documentation(
        &self,
        server: &mut MCPServer,
        modules: &Vec<(String, ModuleDescriptor)>,
    )
        ensures
            final(server)@ == (ServerView {
                listed: Some(documents(named(modules@))),
                docs: Some(documents(named(modules@))),
                ..old(server)@
            }),
    {
        let mut docs = JsonObject::new();
        let mut i: usize = 0;
        let ghost all = named(modules@);
        while i < modules.len()
            invariant
                i <= modules.len(),
                all == named(modules@),
                docs@ == documents(all.take(i as int)),
            decreases modules.len() - i,
        {
            assert(all.take(i + 1).drop_last() =~= all.take(i as int));
            assert(all.take(i + 1).last() == (modules@[i as int].0@, modules@[i as int].1));
            if let Some(s) = Self::documentation(&modules[i].1) {
                docs.insert(modules[i].0.as_str(), Json::text(s.as_str()));
            }
            i = i + 1;
        }
        assert(all.take(all.len() as int) =~= all);
        server.set_listed_docs(docs.clone());
        server.set_docs(docs);
    }

    /// Serves the documentation of the modules that are registered at the moment on `server`.
    pub fn register_resource_handlers(
        &self,
        server: &mut MCPServer,
        registry: &apcore::registry::Registry,
    )
        ensures
            exists|modules: Seq<(Seq<char>, ModuleDescriptor)>|
                #![trigger documents(modules)]
                registered_modules(registry, modules) && named_in_order(modules) && final(server)@
                    == (ServerView {
                    listed: Some(documents(modules)),
                    docs: Some(documents(modules)),
                    ..old(server)@
                }),
    {
        let ids = modules::list(registry, None, None);
        let mut found: Vec<(String, ModuleDescriptor)> = Vec::new();
        let ghost mut looked: Seq<Option<ModuleDescriptor>> = Seq::empty();
        let mut i: usize = 0;
        assert(named(found@) =~= defined(ids@.take(0), looked));
        while i < ids.len()
            invariant
                i <= ids.len(),
                modules::ids_ascend(ids@),
                named_in_order(named(found@)),
                forall|j: int|
                    0 <= j < found.len() ==> exists|k: int|
                        0 <= k < i && #[trigger] ids@[k]@ == (#[trigger] named(found@)[j]).0,
                looked.len() == i,
                forall|j: int|
                    0 <= j < i ==> modules::looked_up(registry, ids@[j]@, #[trigger] looked[j]),
                named(found@) == defined(ids@.take(i as int), looked),
            decreases ids.len() - i,
        {
            let ghost before = named(found@);
            let ghost seen = looked;
            let descriptor = modules::definition(registry, ids[i].as_str());
            proof {
                looked = looked.push(descriptor);
                assert(looked.drop_last() =~= seen);
                assert(ids@.take(i + 1).drop_last() =~= ids@.take(i as int));
                assert(ids@.take(i + 1).last() == ids@[i as int]);
            }
            if let Some(descriptor) = descriptor {
                found.push((ids[i].clone(), descriptor));
                assert(named(found@) =~= before.push((ids@[i as int]@, descriptor)));
            }
            i = i + 1;
        }
        assert(ids@.take(ids@.len() as int) =~= ids@);
        self.serve_documentation(server, &found);
        assert(registered_modules(registry, named(found@)));
        assert(documents(named(found@)) == documents(named(found@)));
    }

    /// What `server` says of itself under this name and version.
    pub fn build_init_options(&self, server: &MCPServer, name: &str, version: &str) -> (options:
        InitializationOptions)
        ensures
            server::options_for(options, server@, name@, version@),
    {
        InitializationOptions {
            server_name: name.to_string(),
            server_version: version.to_string(),
            capabilities: server.capabilities(),
        }
    }
}

/// The modules stand in the order of their ids, each once.
pub open spec fn named_in_order(modules: Seq<(Seq<char>, ModuleDescriptor)>) -> bool {
    forall|i: int, j: int|
        0 <= i < j < modules.len() ==> text::precedes(
            (#[trigger] modules[i]).0,
            (#[trigger] modules[j]).0,
        )
}

/// The source is what the registry and the adapters give for its id: the module as it was looked up,
/// what its schema comes to, and, where long descriptions are wanted, its long description.
pub open spec fn source_taken<A: ToolAdapters>(
    rich: bool,
    registry: &apcore::registry::Registry,
    adapters: &A,
    source: ModuleSource,
) -> bool {
    &&& modules::looked_up(registry, source.module_id@, source.descriptor)
    &&& source.descriptor matches Some(d) ==> call_ensures(
        A::convert_input_schema,
        (adapters, &d.input_schema),
        source.input_schema,
    )
    &&& source.descriptor matches Some(d) ==> rich ==> call_ensures(
        A::render_markdown,
        (adapters, &d),
        source.markdown,
    )
}

/// The sources are those of the modules that the registry lists for these tags and this prefix, one
/// for each, in the order of the list.
pub open spec fn taken_from<A: ToolAdapters>(
    rich: bool,
    registry: &apcore::registry::Registry,
    adapters: &A,
    tags: Option<&[&str]>,
    prefix: Option<&str>,
    sources: Seq<ModuleSource>,
) -> bool {
    exists|ids: Seq<String>| #[trigger]
        modules::listed(registry, tags, prefix, ids) && sources.len() == ids.len() && forall|
            i: int,
        |
            0 <= i < sources.len() ==> (#[trigger] sources[i]).module_id@ == ids[i]@
                && source_taken(rich, registry, adapters, sources[i])
}

/// The sources are modules that were listed: in the order of their ids, and each with the prefix.
pub open spec fn sources_listed(sources: Seq<ModuleSource>, prefix: Option<Seq<char>>) -> bool {
    &&& forall|i: int, j: int|
        0 <= i < j < sources.len() ==> text::precedes(
            (#[trigger] sources[i]).module_id@,
            (#[trigger] sources[j]).module_id@,
        )
    &&& prefix matches Some(p) ==> forall|i: int|
        0 <= i < sources.len() ==> text::has_prefix((#[trigger] sources[i]).module_id@, p)
}

/// Names that stand in order differ.
proof fn lemma_named_apart(modules: Seq<(Seq<char>, ModuleDescriptor)>, i: int, j: int)
    requires
        named_in_order(modules),
        0 <= i < j < modules.len(),
    ensures
        modules[i].0 != modules[j].0,
{
    assert(text::precedes(modules[i].0, modules[j].0));
}

proof fn lemma_documented(modules: Seq<(Seq<char>, ModuleDescriptor)>, id: Seq<char>)
    requires
        named_in_order(modules),
    ensures
        forall|i: int|
            0 <= i < modules.len() && (#[trigger] modules[i]).0 == id ==> json::text_in(
                json::lookup(documents(modules), id),
            ) == documentation(modules[i].1),
        (forall|i: int| 0 <= i < modules.len() ==> (#[trigger] modules[i]).0 != id)
            ==> json::lookup(documents(modules), id) is None,
    decreases modules.len(),
{
    broadcast use json::group_lookup;

    if modules.len() > 0 {
        let rest = modules.drop_last();
        let last = modules.len() - 1;
        lemma_documented(rest, id);
        assert(forall|j: int| 0 <= j < last ==> rest[j] == modules[j]);
        assert forall|j: int| 0 <= j < last implies (#[trigger] rest[j]).0 != modules[last].0 by {
            lemma_named_apart(modules, j, last);
        }
        if modules[last].0 == id {
            assert(json::lookup(documents(rest), id) is None);
        }
    }
}

/// The documentation of a module is read under its id, and under an id that no module has there is
/// none.
pub proof fn law_documented_modules_are_read(
    modules: Seq<(Seq<char>, ModuleDescriptor)>,
    id: Seq<char>,
)
    requires
        named_in_order(modules),
    ensures
        forall|i: int|
            0 <= i < modules.len() && (#[trigger] modules[i]).0 == id ==> server::doc_at(
                documents(modules),
                server::DOCS_SCHEME@ + id,
            ) == documentation(modules[i].1),
        (forall|i: int| 0 <= i < modules.len() ==> (#[trigger] modules[i]).0 != id)
            ==> server::doc_at(documents(modules), server::DOCS_SCHEME@ + id) is None,
{
    let uri = server::DOCS_SCHEME@ + id;
    assert(uri.take(server::DOCS_SCHEME@.len() as int) =~= server::DOCS_SCHEME@);
    assert(uri.skip(server::DOCS_SCHEME@.len() as int) =~= id);
    lemma_documented(modules, id);
}

/// A module that is refused ends the building.
proof fn lemma_refused(rich: bool, sources: Seq<ModuleSource>, i: int)
    requires
        0 <= i < sources.len(),
        assembled(rich, sources.take(i)) is Ok,
        built(rich, sources[i]) is Refused,
    ensures
        assembled(rich, sources) == Err::<Seq<ToolView>, Seq<char>>(sources[i].module_id@),
    decreases sources.len(),
{
    if i == sources.len() - 1 {
        assert(sources.drop_last() =~= sources.take(i));
    } else {
        assert(sources.drop_last().take(i) =~= sources.take(i));
        lemma_refused(rich, sources.drop_last(), i);
    }
}

/// Where one module's id is reserved, no tools are built at all.
pub proof fn law_reserved_modules_are_fatal(rich: bool, sources: Seq<ModuleSource>, i: int)
    requires
        0 <= i < sources.len(),
        async_task_bridge::reserved(sources[i].module_id@),
    ensures
        assembled(rich, sources) is Err,
    decreases sources.len(),
{
    if i < sources.len() - 1 {
        law_reserved_modules_are_fatal(rich, sources.drop_last(), i);
    }
}

/// A tool that goes by its module's own id never has a reserved name.
pub proof fn law_own_names_are_not_reserved(rich: bool, source: ModuleSource)
    requires
        source.descriptor matches Some(descriptor) ==> json::text_in(
            json::get_in(overlay(descriptor), "alias"@),
        ) is None,
    ensures
        built(rich, source) matches SourceView::Built(tool) ==> !async_task_bridge::reserved(
            tool.name,
        ),
{
}

/// The hints of a tool are what its module says of itself, each under its own name; of a module
/// that says nothing it is taken that it does no harm and reaches the outside world.
pub proof fn law_modules_give_their_hints(
    annotations: Option<&ModuleAnnotations>,
    hints: McpAnnotations,
    streaming: bool,
    meta: ToolMeta,
    document: Json,
)
    requires
        call_ensures(ToolAnnotationBuilder::build_annotations, (annotations,), hints),
        call_ensures(ToolAnnotationBuilder::is_streaming, (annotations,), streaming),
        call_ensures(ToolAnnotationBuilder::build_meta, (annotations,), meta),
        call_ensures(ToolAnnotationBuilder::build_meta_value, (annotations,), document),
    ensures
        hints.title is None,
        match annotations {
            Some(a) => hints.read_only_hint == a.readonly && hints.destructive_hint
                == a.destructive && hints.idempotent_hint == a.idempotent && hints.open_world_hint
                == a.open_world && streaming == a.streaming && meta.requires_approval
                == a.requires_approval && meta.streaming == a.streaming,
            None => !hints.read_only_hint && !hints.destructive_hint && !hints.idempotent_hint
                && hints.open_world_hint && !streaming && !meta.requires_approval
                && !meta.streaming,
        },
        document@.get("requiresApproval"@) == (if meta.requires_approval {
            Some(JsonView::Bool(true))
        } else {
            None
        }),
        document@.get("streaming"@) == (if meta.streaming {
            Some(JsonView::Bool(true))
        } else {
            None
        }),
        document@ is Object,
{
    broadcast use json::group_members;

    reveal_strlit("requiresApproval");
    reveal_strlit("streaming");
    assert("requiresApproval"@.len() == 16);
    assert("streaming"@.len() == 9);
}

/// The tool for a module has the module's id for its name, or the one that it is given instead, the
/// description that it is given with what the module's metadata adds, the schema that it is given,
/// and the module's own hints and flags. A module whose id is reserved, or that has no schema, has
/// no tool.
pub proof fn law_tools_are_built_from_modules(
    factory: &MCPServerFactory,
    descriptor: &ModuleDescriptor,
    description: &str,
    name: Option<&str>,
    schema: Result<Json, String>,
    built: Result<Tool, FactoryError>,
    same: Result<Tool, FactoryError>,
    registry: Option<&apcore::registry::Registry>,
    reserved_id: bool,
    id: &str,
    described: String,
    annotations: Option<&ModuleAnnotations>,
    hints: McpAnnotations,
    flags: ToolMeta,
    meta: Json,
)
    requires
        call_ensures(
            MCPServerFactory::build_tool,
            (factory, descriptor, description, name, schema),
            built,
        ),
        call_ensures(
            MCPServerFactory::build_tool_with_registry,
            (factory, descriptor, description, name, registry, schema),
            same,
        ),
        id@ == descriptor.module_id@,
        call_ensures(AsyncTaskBridge::is_reserved_id, (id,), reserved_id),
        call_ensures(enrich_description, (description, Some(&descriptor.metadata)), described),
        match (descriptor.annotations, annotations) {
            (Some(a), Some(b)) => a == *b,
            (None, None) => true,
            _ => false,
        },
        call_ensures(ToolAnnotationBuilder::build_annotations, (annotations,), hints),
        call_ensures(ToolAnnotationBuilder::build_meta, (annotations,), flags),
        call_ensures(ToolAnnotationBuilder::build_meta_value, (annotations,), meta),
    ensures
        built is Ok <==> !reserved_id && schema is Ok,
        built is Ok == same is Ok,
        reserved_id ==> (built matches Err(FactoryError::ReservedPrefix(refused)) && refused@
            == descriptor.module_id@),
        !reserved_id ==> (schema matches Err(why) ==> (built matches Err(FactoryError::Other(
            reason,
        )) && reason@ == why@)),
        built matches Ok(tool) ==> {
            &&& tool.name@ == (match name {
                Some(given) => given@,
                None => descriptor.module_id@,
            })
            &&& tool.description@ == described@
            &&& schema matches Ok(given) && tool.input_schema@ == given@
            &&& tool.annotations matches Some(a) && a.title is None && a.read_only_hint == Some(
                hints.read_only_hint,
            ) && a.destructive_hint == Some(hints.destructive_hint) && a.idempotent_hint == Some(
                hints.idempotent_hint,
            ) && a.open_world_hint == Some(hints.open_world_hint)
            &&& json::opt_view(tool.meta) == (if flags.requires_approval || flags.streaming {
                Some(meta@)
            } else {
                None
            })
            &&& same matches Ok(other) && other@ == tool@
        },
{
    if let Ok(tool) = built {
        assert(tool@.annotations == Some(self::hints(descriptor.annotations)));
    }
}

/// What the metadata says under `key`, as a line of its own under this label; no line where it says
/// nothing, or no text.
pub open spec fn labelled(metadata: Entries, key: Seq<char>, label: Seq<char>) -> Seq<Seq<char>> {
    match JsonView::Object(metadata).get(key) {
        Some(JsonView::String(s)) => if s.len() > 0 {
            seq![label + ": "@ + s]
        } else {
            Seq::empty()
        },
        _ => Seq::empty(),
    }
}

proof fn lemma_one_more_line(metadata: Entries, keys: Seq<Seq<char>>, key: Seq<char>)
    ensures
        intent_lines(metadata, keys.push(key)) == intent_lines(metadata, keys) + labelled(
            metadata,
            key,
            intent_label(key),
        ),
{
    assert(keys.push(key).drop_last() =~= keys);
    assert(intent_lines(metadata, keys.push(key)) =~= intent_lines(metadata, keys) + labelled(
        metadata,
        key,
        intent_label(key),
    ));
}

/// What the metadata of a module says of when to use it, when not to, of common mistakes and of
/// workflows stands below the description in this order, each in a line under its own label; what
/// is missing, empty or no text does not, and without any of them the description stays as it is.
pub proof fn law_intents_stand_in_descriptions(
    base: &str,
    metadata: &JsonObject,
    shown: String,
    plain: String,
    keys: (&str, &str, &str, &str),
    labels: (String, String, String, String),
)
    requires
        call_ensures(enrich_description, (base, Some(metadata)), shown),
        call_ensures(enrich_description, (base, None::<&JsonObject>), plain),
        keys.0@ == "x-when-to-use"@,
        keys.1@ == "x-when-not-to-use"@,
        keys.2@ == "x-common-mistakes"@,
        keys.3@ == "x-workflow-hints"@,
        call_ensures(format_intent_label, (keys.0,), labels.0),
        call_ensures(format_intent_label, (keys.1,), labels.1),
        call_ensures(format_intent_label, (keys.2,), labels.2),
        call_ensures(format_intent_label, (keys.3,), labels.3),
    ensures
        plain@ == base@,
        ({
            let lines = labelled(metadata@, keys.0@, labels.0@) + labelled(
                metadata@,
                keys.1@,
                labels.1@,
            ) + labelled(metadata@, keys.2@, labels.2@) + labelled(
                metadata@,
                keys.3@,
                labels.3@,
            );
            shown@ == (if lines.len() == 0 {
                base@
            } else {
                base@ + "\n\n"@ + text::joined(lines, "\n"@)
            })
        }),
{
    let m = metadata@;
    let none = Seq::<Seq<char>>::empty();
    let one = none.push(keys.0@);
    let two = one.push(keys.1@);
    let three = two.push(keys.2@);
    lemma_one_more_line(m, none, keys.0@);
    lemma_one_more_line(m, one, keys.1@);
    lemma_one_more_line(m, two, keys.2@);
    lemma_one_more_line(m, three, keys.3@);
    assert(intent_keys() =~= three.push(keys.3@));
    assert(intent_lines(m, none) =~= Seq::<Seq<char>>::empty());
    assert(intent_lines(m, one) =~= labelled(m, keys.0@, labels.0@));
}

/// Labels are made of their keys: without the prefix that marks them, with a space for each hyphen,
/// and each word capitalized.
pub proof fn law_labels_are_made_of_keys(key: &str, bare: &str, label: String, same: String)
    requires
        key@ == "x-"@ + bare@,
        !text::has_prefix(bare@, "x-"@),
        call_ensures(format_intent_label, (key,), label),
        call_ensures(format_intent_label, (bare,), same),
    ensures
        label@ == same@,
        label@ == text::joined(
            words(bare@).map_values(|word: Seq<char>| capitalized(word)),
            " "@,
        ),
{
    law_labels_have_no_prefix(bare@);
}

/// A trace is shown step by step, in their order: each with its name, its duration and why it was
/// skipped, as far as it says; and with the number of steps.
pub proof fn law_traces_are_shown_step_by_step(trace: &Json, json: Json)
    requires
        call_ensures(summarize_trace, (trace,), json),
    ensures
        ({
            let steps = match trace@.get("steps"@) {
                Some(JsonView::Array(steps)) => steps,
                _ => Seq::empty(),
            };
            &&& json@.get("step_count"@) == Some(
                JsonView::Number(json::NumberView::Int(steps.len() as int)),
            )
            &&& json@.get("steps"@) matches Some(JsonView::Array(shown)) && shown.len()
                == steps.len() && forall|i: int|
                0 <= i < shown.len() ==> (#[trigger] shown[i]).get("name"@) == (match steps[i].get(
                    "name"@,
                ) {
                    Some(JsonView::String(name)) => Some(JsonView::String(name)),
                    _ => None,
                }) && shown[i].get("duration_ms"@) == steps[i].get("duration_ms"@)
                    && shown[i].get("skip_reason"@) == (match steps[i].get("skip_reason"@) {
                    Some(JsonView::Null) => None,
                    other => other,
                })
        }),
{
    broadcast use json::group_members;

    reveal_strlit("step_count");
    reveal_strlit("steps");
    reveal_strlit("name");
    reveal_strlit("duration_ms");
    reveal_strlit("skip_reason");
    assert("step_count"@.len() == 10);
    assert("steps"@.len() == 5);
    assert("name"@.len() == 4);
    assert("duration_ms"@.len() == 11);
    assert("skip_reason"@.len() == 11);
    assert("duration_ms"@[0] != "skip_reason"@[0]);
}

/// The texts among pieces of content, in their order, are the pieces of text of a result; an error
/// stays one, and a success one.
pub proof fn law_results_have_the_texts(
    items: &Vec<ContentItem>,
    is_error: bool,
    trace_id: Option<&str>,
    span: &str,
    result: CallToolResult,
    fresh: CallToolResult,
)
    requires
        call_ensures(tool_result_from, (items, is_error, trace_id, span), result),
        call_ensures(tool_result, (items, is_error, trace_id), fresh),
        forall|i: int|
            0 <= i < items@.len() ==> (#[trigger] items@[i]).content_type@ == "text"@
                && items@[i].data@ is String,
    ensures
        result.is_error == is_error,
        fresh.is_error == is_error,
        result.content@.len() == items@.len(),
        forall|i: int|
            0 <= i < items@.len() ==> (#[trigger] result.content@[i]).content_type@ == "text"@
                && items@[i].data@ == JsonView::String(result.content@[i].text@),
        fresh.content@.len() == items@.len(),
        forall|i: int|
            0 <= i < items@.len() ==> (#[trigger] fresh.content@[i]).content_type@ == "text"@
                && items@[i].data@ == JsonView::String(fresh.content@[i].text@),
{
    let views = router::content_views(items@);
    assert forall|i: int| 0 <= i < views.len() implies (#[trigger] views[i]).content_type
        == "text"@ && views[i].data is String by {
        assert(views[i] == items@[i]@);
    }
    lemma_all_texts(views);
    assert(types::text_views(result.content@).len() == result.content@.len());
    assert(types::text_views(fresh.content@).len() == fresh.content@.len());
    assert forall|i: int| 0 <= i < items@.len() implies (
    #[trigger] result.content@[i]).content_type@ == "text"@ && items@[i].data@
        == JsonView::String(result.content@[i].text@) by {
        assert(types::text_views(result.content@)[i] == result.content@[i]@);
        assert(views[i] == items@[i]@);
    }
    assert forall|i: int| 0 <= i < items@.len() implies (
    #[trigger] fresh.content@[i]).content_type@ == "text"@ && items@[i].data@ == JsonView::String(
        fresh.content@[i].text@,
    ) by {
        assert(types::text_views(fresh.content@)[i] == fresh.content@[i]@);
        assert(views[i] == items@[i]@);
    }
}

/// Where all pieces are texts, all of them stand in the result.
proof fn lemma_all_texts(items: Seq<ContentView>)
    requires
        forall|i: int|
            0 <= i < items.len() ==> (#[trigger] items[i]).content_type == "text"@
                && items[i].data is String,
    ensures
        texts_of(items).len() == items.len(),
        forall|i: int|
            0 <= i < items.len() ==> (#[trigger] texts_of(items)[i]).content_type == "text"@
                && items[i].data == JsonView::String(texts_of(items)[i].text),
    decreases items.len(),
{
    if items.len() > 0 {
        let rest = items.drop_last();
        assert forall|i: int| 0 <= i < rest.len() implies (#[trigger] rest[i]).content_type
            == "text"@ && rest[i].data is String by {
            assert(rest[i] == items[i]);
        }
        lemma_all_texts(rest);
        assert(items.last() == items[items.len() - 1]);
        assert forall|i: int| 0 <= i < items.len() implies (
        #[trigger] texts_of(items)[i]).content_type == "text"@ && items[i].data
            == JsonView::String(texts_of(items)[i].text) by {
            if i < rest.len() {
                assert(texts_of(items)[i] == texts_of(rest)[i]);
                assert(rest[i] == items[i]);
            }
        }
    }
}

/// What a call gives comes to the client: the text first, the trace in short in the metadata, and
/// the trace that it belongs to as a header there, from the span that is given.
pub proof fn law_outcomes_come_to_the_client(
    items: &Vec<ContentItem>,
    is_error: bool,
    trace_id: Option<&str>,
    span: &str,
    result: CallToolResult,
    shown: Seq<char>,
    trace: &Json,
    summary: Json,
    hex: String,
    whole: bool,
)
    requires
        items@.len() == 2,
        items@[0].content_type@ == "text"@,
        items@[0].data@ == JsonView::String(shown),
        items@[1].content_type@ == "trace"@,
        items@[1].data@ == trace@,
        call_ensures(tool_result_from, (items, is_error, trace_id, span), result),
        call_ensures(summarize_trace, (trace,), summary),
        trace_id matches Some(id) ==> call_ensures(text::remove_hyphens, (id,), hex),
        whole == (hex@.len() == 32 && ids::hex_text(hex@)),
    ensures
        result.is_error == is_error,
        result.content@.len() == 1,
        result.content@[0].content_type@ == "text"@,
        result.content@[0].text@ == shown,
        result.meta matches Some(meta) && meta@.get("trace"@) == Some(summary@) && meta@.get(
            "traceparent"@,
        ) == (if trace_id is Some && whole {
            Some(JsonView::String("00-"@ + hex@ + "-"@ + span@ + "-01"@))
        } else {
            None
        }),
{
    broadcast use json::group_members;

    reveal_strlit("text");
    reveal_strlit("trace");
    reveal_strlit("traceparent");
    assert("text"@.len() == 4);
    assert("trace"@.len() == 5);
    assert("traceparent"@.len() == 11);
    let views = router::content_views(items@);
    assert(views.len() == 2);
    assert(views[0] == items@[0]@ && views[1] == items@[1]@);
    assert(views.drop_last().len() == 1);
    assert(views.drop_last().last() == views[0]);
    assert(views.drop_last().drop_last() =~= Seq::<ContentView>::empty());
    assert(views.last() == views[1]);
    reveal_with_fuel(texts_of, 3);
    reveal_with_fuel(trace_of, 3);
    assert(types::text_views(result.content@).len() == result.content@.len());
    assert(types::text_views(result.content@)[0] == result.content@[0]@);
    let meta = result_meta(views, text::ref_view(trace_id), span@);
    assert(meta.get("trace"@) == Some(summary@));
    let entries = meta->Object_0;
    let p = json::position(entries, "trace"@);
    assert(json::first_at(entries, "trace"@, p));
    assert(entries.len() > 0);
}

/// A result with neither a trace nor an origin has no metadata.
pub proof fn law_plain_results_have_no_metadata(
    items: &Vec<ContentItem>,
    is_error: bool,
    span: &str,
    result: CallToolResult,
)
    requires
        call_ensures(tool_result_from, (items, is_error, None::<&str>, span), result),
        forall|i: int| 0 <= i < items@.len() ==> (#[trigger] items@[i]).content_type@ != "trace"@,
    ensures
        result.meta is None,
{
    let views = router::content_views(items@);
    assert forall|i: int| 0 <= i < views.len() implies (#[trigger] views[i]).content_type
        != "trace"@ by {
        assert(views[i] == items@[i]@);
    }
    lemma_no_trace(views);
}

proof fn lemma_no_trace(items: Seq<ContentView>)
    requires
        forall|i: int| 0 <= i < items.len() ==> (#[trigger] items[i]).content_type != "trace"@,
    ensures
        trace_of(items) is None,
    decreases items.len(),
{
    if items.len() > 0 {
        let rest = items.drop_last();
        assert forall|i: int| 0 <= i < rest.len() implies (#[trigger] rest[i]).content_type
            != "trace"@ by {
            assert(rest[i] == items[i]);
        }
        lemma_no_trace(rest);
        assert(items[items.len() - 1].content_type != "trace"@);
    }
}

/// A server is created under its own name, where that has between 1 and 255 characters, and set up
/// otherwise as by default; any other name is refused with its length.
pub proof fn law_servers_are_created(
    factory: &MCPServerFactory,
    name: &str,
    version: &str,
    created: Result<MCPServer, FactoryError>,
    own: &str,
    default: MCPServerConfig,
)
    requires
        call_ensures(MCPServerFactory::create_server, (factory, name, version), created),
        created matches Ok(server) ==> call_ensures(MCPServer::name, (&server,), own),
        call_ensures(<MCPServerConfig as Default>::default, (), default),
    ensures
        created is Ok <==> 1 <= name@.len() <= 255,
        created matches Err(error) ==> (error matches FactoryError::InvalidName(n) && n
            == name@.len()),
        created is Ok ==> own@ == name@,
        created matches Ok(server) ==> server@.config@ == (ConfigView { name: name@, ..default@ })
            && !server@.running && server@.tools is None && server@.docs is None && server@.listed
            is None && !server@.calls,
{
}

/// A factory shows long descriptions exactly where that was asked for, and prepares nothing.
pub proof fn law_factories_are_set_up(
    plain: MCPServerFactory,
    rich: bool,
    asked: MCPServerFactory,
    default: MCPServerFactory,
    plain_rich: bool,
    asked_rich: bool,
    default_rich: bool,
    prepared: bool,
)
    requires
        call_ensures(MCPServerFactory::new, (), plain),
        call_ensures(MCPServerFactory::with_rich_description, (rich,), asked),
        call_ensures(<MCPServerFactory as Default>::default, (), default),
        call_ensures(MCPServerFactory::rich_description, (&plain,), plain_rich),
        call_ensures(MCPServerFactory::rich_description, (&asked,), asked_rich),
        call_ensures(MCPServerFactory::rich_description, (&default,), default_rich),
        call_ensures(MCPServerFactory::prepare, (), prepared),
    ensures
        !plain_rich,
        asked_rich == rich,
        !default_rich,
        !prepared,
{
}

/// Each module with a schema has a tool, in the order of the modules. It goes by the alias that the
/// module asks for, or else by the module's id, and is described as the module asks, or else at
/// length where that is wanted, or else by the module's own description, with the guidance that it
/// asks for; one that could not be looked up or has no schema has none.
pub proof fn law_modules_become_tools(
    factory: &MCPServerFactory,
    source: ModuleSource,
    sources: Vec<ModuleSource>,
    tools: Result<Vec<Tool>, FactoryError>,
    descriptor: &ModuleDescriptor,
    description: &str,
    alias: Option<&str>,
    built: Result<Tool, FactoryError>,
    rich: bool,
)
    requires
        sources@ == seq![source],
        !async_task_bridge::reserved(source.module_id@),
        source.descriptor == Some(*descriptor),
        call_ensures(MCPServerFactory::rich_description, (factory,), rich),
        call_ensures(MCPServerFactory::assemble, (factory, sources), tools),
        ({
            let display = match descriptor.display {
                Some(own) => Some(own@),
                None => JsonView::Object(descriptor.metadata@).get("display"@),
            };
            let asked = json::get_in(display, "mcp"@);
            let shown = match json::get_in(asked, "description"@) {
                Some(JsonView::String(s)) => s,
                _ => if rich {
                    source.markdown@
                } else {
                    descriptor.description@
                },
            };
            &&& description@ == (match json::get_in(asked, "guidance"@) {
                Some(JsonView::String(guidance)) => shown + "\n\nGuidance: "@ + guidance,
                _ => shown,
            })
            &&& text::ref_view(alias) == (match json::get_in(asked, "alias"@) {
                Some(JsonView::String(name)) => Some(name),
                _ => None,
            })
        }),
        call_ensures(
            MCPServerFactory::build_tool,
            (factory, descriptor, description, alias, source.input_schema),
            built,
        ),
    ensures
        match built {
            Ok(tool) => tools matches Ok(list) && list@.len() == 1 && list@[0]@ == tool@,
            Err(FactoryError::ReservedPrefix(_)) => tools matches Err(
                FactoryError::ReservedPrefix(id),
            ) && id@ == source.module_id@,
            Err(_) => tools matches Ok(list) && list@.len() == 0,
        },
{
    assert(sources@.last() == source);
    assert(sources@.drop_last() =~= Seq::<ModuleSource>::empty());
    reveal_with_fuel(assembled, 2);
    if let Ok(list) = tools {
        let views = types::tool_views(list@);
        assert(views.len() == list@.len());
        if views.len() > 0 {
            assert(views[0] == list@[0]@);
        }
    }
}

/// The tools for modules are those for the first of them, followed by the tool for the last where
/// there is one: none is lost, none is moved.
pub proof fn law_tools_stand_in_the_order_of_modules(
    factory: &MCPServerFactory,
    sources: Vec<ModuleSource>,
    rest: Vec<ModuleSource>,
    only: Vec<ModuleSource>,
    tools: Result<Vec<Tool>, FactoryError>,
    before: Result<Vec<Tool>, FactoryError>,
    last: Result<Vec<Tool>, FactoryError>,
    none: Vec<ModuleSource>,
    nothing: Result<Vec<Tool>, FactoryError>,
)
    requires
        sources@.len() > 0,
        rest@ == sources@.drop_last(),
        only@ == seq![sources@.last()],
        none@.len() == 0,
        call_ensures(MCPServerFactory::assemble, (factory, sources), tools),
        call_ensures(MCPServerFactory::assemble, (factory, rest), before),
        call_ensures(MCPServerFactory::assemble, (factory, only), last),
        call_ensures(MCPServerFactory::assemble, (factory, none), nothing),
    ensures
        nothing matches Ok(list) && list@.len() == 0,
        tools is Ok <==> before is Ok && last is Ok,
        match (tools, before, last) {
            (Ok(all), Ok(first), Ok(end)) => types::tool_views(all@) == types::tool_views(first@)
                + types::tool_views(end@),
            (Err(FactoryError::ReservedPrefix(id)), Err(FactoryError::ReservedPrefix(own)), _) =>
                id@ == own@,
            (Err(FactoryError::ReservedPrefix(id)), Ok(_), Err(
                FactoryError::ReservedPrefix(own),
            )) => id@ == own@,
            _ => false,
        },
{
    let source = sources@.last();
    assert(only@.last() == source);
    assert(only@.drop_last() =~= Seq::<ModuleSource>::empty());
    assert(none@ =~= Seq::<ModuleSource>::empty());
    reveal_with_fuel(assembled, 2);
    if let Ok(list) = nothing {
        assert(types::tool_views(list@).len() == list@.len());
    }
    if let (Ok(all), Ok(first), Ok(end)) = (tools, before, last) {
        assert(types::tool_views(all@) =~= types::tool_views(first@) + types::tool_views(end@));
    }
}

/// The documentation of a module is its long text, or else its description; an empty text counts
/// for nothing.
pub proof fn law_modules_are_documented(descriptor: &ModuleDescriptor, document: Option<String>)
    requires
        call_ensures(MCPServerFactory::documentation, (descriptor,), document),
    ensures
        match descriptor.documentation {
            Some(long) => if long@.len() > 0 {
                document matches Some(s) && s@ == long@
            } else {
                text::opt_view(document) == (if descriptor.description@.len() > 0 {
                    Some(descriptor.description@)
                } else {
                    None
                })
            },
            None => text::opt_view(document) == (if descriptor.description@.len() > 0 {
                Some(descriptor.description@)
            } else {
                None
            }),
        },
{
}

/// Serving the documentation of a module lists it and reads it under the module's id; it touches
/// nothing else of the server.
pub proof fn law_documentation_is_served(
    factory: &MCPServerFactory,
    server: &mut MCPServer,
    modules: &Vec<(String, ModuleDescriptor)>,
    document: Option<String>,
)
    requires
        modules@.len() == 1,
        call_ensures(MCPServerFactory::serve_documentation, (factory, server, modules), ()),
        call_ensures(MCPServerFactory::documentation, (&modules@[0].1,), document),
    ensures
        final(server)@.docs matches Some(docs) && final(server)@.listed == Some(docs) && (
        match document {
            Some(s) => docs.len() == 1 && docs[0].0 == modules@[0].0@ && docs[0].1
                == JsonView::String(s@),
            None => docs.len() == 0,
        }),
        final(server)@ == (ServerView {
            docs: final(server)@.docs,
            listed: final(server)@.listed,
            ..old(server)@
        }),
{
    let all = named(modules@);
    assert(all.len() == 1);
    assert(all.last() == (modules@[0].0@, modules@[0].1));
    assert(all.drop_last() =~= Seq::<(Seq<char>, ModuleDescriptor)>::empty());
    reveal_with_fuel(documents, 2);
    assert(!json::has_key(json::no_entries(), modules@[0].0@));
}

/// The tools that are registered are those that the server lists, and it calls tools from then on;
/// nothing else of it is touched.
pub proof fn law_handlers_are_registered(
    factory: &MCPServerFactory,
    server: &mut MCPServer,
    tools: Vec<Tool>,
    listed: Option<Vec<Tool>>,
    offered: bool,
)
    requires
        call_ensures(MCPServerFactory::register_handlers, (factory, server, tools), ()),
        call_ensures(MCPServer::list_tools, (&*final(server),), listed),
        call_ensures(MCPServer::has_tool_handlers, (&*final(server),), offered),
    ensures
        offered,
        listed matches Some(list) && types::tool_views(list@) == types::tool_views(tools@),
        final(server)@ == (ServerView {
            tools: final(server)@.tools,
            calls: true,
            ..old(server)@
        }),
{
}

/// The meta-tools are added after the tools that there are, which stay as they are.
pub proof fn law_meta_tools_are_appended(
    tools: &mut Vec<Tool>,
    more: &mut Vec<Tool>,
    meta: Vec<Tool>,
    approval: Vec<Tool>,
)
    requires
        call_ensures(MCPServerFactory::append_meta_tools, (tools,), ()),
        call_ensures(MCPServerFactory::append_approval_meta_tools, (more,), ()),
        call_ensures(AsyncTaskBridge::build_meta_tools, (), meta),
        call_ensures(ApprovalBridge::build_meta_tools, (), approval),
    ensures
        types::tool_views(final(tools)@) == types::tool_views(old(tools)@) + types::tool_views(
            meta@,
        ),
        types::tool_views(final(more)@) == types::tool_views(old(more)@) + types::tool_views(
            approval@,
        ),
{
    assert(types::tool_views(old(more)@).push(approval_bridge::check_tool()) =~= types::tool_views(
        old(more)@,
    ) + seq![approval_bridge::check_tool()]);
}

/// What a server says of itself has the name and the version that it is given, and what the server
/// offers.
pub proof fn law_options_are_built(
    factory: &MCPServerFactory,
    server: &MCPServer,
    name: &str,
    version: &str,
    options: InitializationOptions,
    has_tools: bool,
    has_resources: bool,
)
    requires
        call_ensures(
            MCPServerFactory::build_init_options,
            (factory, server, name, version),
            options,
        ),
        call_ensures(MCPServer::has_tool_handlers, (server,), has_tools),
        call_ensures(MCPServer::has_resource_handlers, (server,), has_resources),
    ensures
        options.server_name@ == name@,
        options.server_version@ == version@,
        options.capabilities.tools is Some == has_tools,
        options.capabilities.resources is Some == has_resources,
{
}

/// The tools that are built are those for the modules that the registry lists for the same tags and
/// prefix, each as the registry has it at the moment and with the schema that the adapters give for
/// its own.
pub proof fn law_listed_modules_become_tools<A: ToolAdapters>(
    factory: &MCPServerFactory,
    registry: &apcore::registry::Registry,
    adapters: &A,
    tags: Option<&[&str]>,
    prefix: Option<&str>,
    tools: Result<Vec<Tool>, FactoryError>,
)
    requires
        call_ensures(
            MCPServerFactory::build_tools::<A>,
            (factory, registry, adapters, tags, prefix),
            tools,
        ),
    ensures
        exists|ids: Seq<String>, sources: Seq<ModuleSource>|
            #![trigger modules::listed(registry, tags, prefix, ids), assembled(factory@, sources)]
            modules::listed(registry, tags, prefix, ids) && sources.len() == ids.len() && (forall|
                i: int,
            |
                0 <= i < sources.len() ==> (#[trigger] sources[i]).module_id@ == ids[i]@
                    && modules::looked_up(registry, ids[i]@, sources[i].descriptor) && (
                sources[i].descriptor matches Some(d) ==> call_ensures(
                    A::convert_input_schema,
                    (adapters, &d.input_schema),
                    sources[i].input_schema,
                ) && (factory@ ==> call_ensures(
                    A::render_markdown,
                    (adapters, &d),
                    sources[i].markdown,
                )))) && match tools {
                Ok(list) => assembled(factory@, sources) == Ok::<Seq<ToolView>, Seq<char>>(
                    types::tool_views(list@),
                ),
                Err(FactoryError::ReservedPrefix(id)) => assembled(factory@, sources) == Err::<
                    Seq<ToolView>,
                    Seq<char>,
                >(id@),
                Err(_) => false,
            },
{
    let sources = choose|sources: Seq<ModuleSource>|
        #![trigger assembled(factory@, sources)]
        taken_from(factory@, registry, adapters, tags, prefix, sources) && sources_listed(
            sources,
            text::ref_view(prefix),
        ) && match tools {
            Ok(list) => assembled(factory@, sources) == Ok::<Seq<ToolView>, Seq<char>>(
                types::tool_views(list@),
            ),
            Err(FactoryError::ReservedPrefix(id)) => assembled(factory@, sources) == Err::<
                Seq<ToolView>,
                Seq<char>,
            >(id@),
            Err(_) => false,
        };
    let ids = choose|ids: Seq<String>| #[trigger]
        modules::listed(registry, tags, prefix, ids) && sources.len() == ids.len() && forall|
            i: int,
        |
            0 <= i < sources.len() ==> (#[trigger] sources[i]).module_id@ == ids[i]@
                && source_taken(factory@, registry, adapters, sources[i]);
    assert(modules::listed(registry, tags, prefix, ids));
    assert(assembled(factory@, sources) == assembled(factory@, sources));
}

/// What is assembled of modules are their tools, one after another: what a list of one module gives
/// is what the module alone becomes, and each module after it adds its own.
pub proof fn law_tools_are_assembled_one_by_one(
    rich: bool,
    sources: Seq<ModuleSource>,
    source: ModuleSource,
)
    ensures
        assembled(rich, Seq::<ModuleSource>::empty()) == Ok::<Seq<ToolView>, Seq<char>>(
            Seq::empty(),
        ),
        assembled(rich, sources) is Err ==> assembled(rich, sources.push(source)) == assembled(
            rich,
            sources,
        ),
        assembled(rich, sources) matches Ok(tools) ==> match assembled(rich, seq![source]) {
            Ok(own) => own.len() <= 1 && assembled(rich, sources.push(source)) == Ok::<
                Seq<ToolView>,
                Seq<char>,
            >(tools + own),
            Err(id) => id == source.module_id@ && assembled(rich, sources.push(source)) == Err::<
                Seq<ToolView>,
                Seq<char>,
            >(id),
        },
        assembled(rich, seq![source]) matches Ok(own) ==> (own.len() == 1 ==> (
        source.descriptor matches Some(d) && (source.input_schema matches Ok(schema)
            && own[0].input_schema == schema@ && (own[0].annotations matches Some(hints)
            && match d.annotations {
            Some(a) => hints.read_only_hint == Some(a.readonly) && hints.destructive_hint == Some(
                a.destructive,
            ) && hints.idempotent_hint == Some(a.idempotent) && hints.open_world_hint == Some(
                a.open_world,
            ),
            None => hints.read_only_hint == Some(false) && hints.destructive_hint == Some(false)
                && hints.idempotent_hint == Some(false) && hints.open_world_hint == Some(true),
        })))),
        source.descriptor is None && !async_task_bridge::reserved(source.module_id@)
            ==> assembled(rich, seq![source]) == Ok::<Seq<ToolView>, Seq<char>>(Seq::empty()),
{
    assert(sources.push(source).drop_last() =~= sources);
    assert(seq![source].drop_last() =~= Seq::<ModuleSource>::empty());
    assert(seq![source].last() == source);
    reveal_with_fuel(assembled, 2);
    if let (Ok(tools), Ok(own)) = (assembled(rich, sources), assembled(rich, seq![source])) {
        if own.len() == 0 {
            assert(tools + own =~= tools);
        } else {
            assert(tools + own =~= tools.push(own[0]));
        }
    }
}

/// The documentation that is served is that of the modules that the registry lists, each as the
/// registry has it at the moment, under its own id; nothing else of the server is touched.
pub proof fn law_registered_modules_are_documented(
    factory: &MCPServerFactory,
    server: &mut MCPServer,
    registry: &apcore::registry::Registry,
)
    requires
        call_ensures(
            MCPServerFactory::register_resource_handlers,
            (factory, server, registry),
            (),
        ),
    ensures
        exists|ids: Seq<String>, found: Seq<Option<ModuleDescriptor>>|
            #![trigger modules::listed(registry, None, None, ids), defined(ids, found)]
            modules::listed(registry, None, None, ids) && found.len() == ids.len() && (forall|
                i: int,
            |
                0 <= i < ids.len() ==> modules::looked_up(registry, ids[i]@, #[trigger] found[i]))
                && final(server)@.docs == Some(documents(defined(ids, found))),
        final(server)@.listed == final(server)@.docs,
        final(server)@ == (ServerView {
            docs: final(server)@.docs,
            listed: final(server)@.listed,
            ..old(server)@
        }),
{
    let modules = choose|modules: Seq<(Seq<char>, ModuleDescriptor)>|
        #![trigger documents(modules)]
        registered_modules(registry, modules) && named_in_order(modules) && final(server)@ == (
        ServerView {
            listed: Some(documents(modules)),
            docs: Some(documents(modules)),
            ..old(server)@
        });
    let (ids, found) = choose|ids: Seq<String>, found: Seq<Option<ModuleDescriptor>>|
        modules::listed(registry, None, None, ids) && found.len() == ids.len() && (forall|i: int|
            0 <= i < ids.len() ==> modules::looked_up(registry, ids[i]@, #[trigger] found[i]))
            && modules == #[trigger] defined(ids, found);
    assert(modules::listed(registry, None, None, ids));
    assert(documents(defined(ids, found)) == documents(modules));
}

/// Of the modules that are listed those are documented that were found, each under its own id, and
/// none of the others.
pub proof fn law_found_modules_are_defined(
    ids: Seq<String>,
    found: Seq<Option<ModuleDescriptor>>,
    id: String,
    last: Option<ModuleDescriptor>,
)
    ensures
        defined(Seq::<String>::empty(), Seq::<Option<ModuleDescriptor>>::empty()).len() == 0,
        defined(ids.push(id), found.push(last)) == (match last {
            Some(descriptor) => defined(ids, found).push((id@, descriptor)),
            None => defined(ids, found),
        }),
{
    assert(ids.push(id).drop_last() =~= ids);
    assert(found.push(last).drop_last() =~= found);
}

/// A further piece of content adds its text to a result where it is a text, and nothing where it is
/// not; a further trace takes the place of the one before it.
pub proof fn law_pieces_are_added_one_by_one(
    items: &Vec<ContentItem>,
    more: &Vec<ContentItem>,
    last: ContentItem,
    is_error: bool,
    trace_id: Option<&str>,
    span: &str,
    before: CallToolResult,
    after: CallToolResult,
    summary: Json,
)
    requires
        more@ == items@.push(last),
        call_ensures(tool_result_from, (items, is_error, trace_id, span), before),
        call_ensures(tool_result_from, (more, is_error, trace_id, span), after),
        call_ensures(summarize_trace, (&last.data,), summary),
    ensures
        after.is_error == is_error,
        last.content_type@ == "text"@ ==> types::text_views(after.content@) == types::text_views(
            before.content@,
        ).push(
            TextView {
                content_type: "text"@,
                text: match last.data@ {
                    JsonView::String(s) => s,
                    _ => Seq::empty(),
                },
            },
        ) && json::opt_view(after.meta) == json::opt_view(before.meta),
        last.content_type@ != "text"@ ==> types::text_views(after.content@) == types::text_views(
            before.content@,
        ),
        last.content_type@ == "trace"@ ==> (after.meta matches Some(meta) && meta@.get("trace"@)
            == Some(summary@)),
        last.content_type@ != "text"@ && last.content_type@ != "trace"@ ==> json::opt_view(
            after.meta,
        ) == json::opt_view(before.meta),
{
    broadcast use json::group_members;

    reveal_strlit("text");
    reveal_strlit("trace");
    reveal_strlit("traceparent");
    assert("text"@.len() == 4);
    assert("trace"@.len() == 5);
    assert("traceparent"@.len() == 11);
    let views = router::content_views(items@);
    let all = router::content_views(more@);
    assert(all =~= views.push(last@));
    assert(all.drop_last() =~= views);
    assert(all.last() == last@);
    if last.content_type@ == "trace"@ {
        let meta = result_meta(all, text::ref_view(trace_id), span@);
        assert(meta.get("trace"@) == Some(summary@));
        let entries = meta->Object_0;
        let p = json::position(entries, "trace"@);
        assert(json::first_at(entries, "trace"@, p));
        assert(entries.len() > 0);
    }
}

proof fn lemma_one_word(s: Seq<char>)
    requires
        forall|i: int| 0 <= i < s.len() ==> #[trigger] s[i] != '-',
    ensures
        words(s) == seq![s],
    decreases s.len(),
{
    if s.len() == 0 {
        assert(s =~= Seq::<char>::empty());
        assert(words(s) =~= seq![s]);
    } else {
        let rest = s.drop_last();
        assert forall|i: int| 0 <= i < rest.len() implies #[trigger] rest[i] != '-' by {
            assert(rest[i] == s[i]);
        }
        lemma_one_word(rest);
        assert(s.last() == s[s.len() - 1]);
        assert(seq![rest].last() == rest);
        assert(rest.push(s.last()) =~= s);
        assert(words(s) =~= seq![s]);
    }
}

proof fn lemma_words_around_a_hyphen(a: Seq<char>, b: Seq<char>)
    ensures
        words(a).len() > 0,
        words(a + seq!['-'] + b) == words(a) + words(b),
    decreases b.len(),
{
    lemma_words(a);
    lemma_words(b);
    let whole = a + seq!['-'] + b;
    if b.len() == 0 {
        assert(whole.drop_last() =~= a);
        assert(whole.last() == '-');
        assert(words(whole) =~= words(a) + words(b));
    } else {
        let rest = b.drop_last();
        lemma_words_around_a_hyphen(a, rest);
        lemma_words(rest);
        assert(whole.drop_last() =~= a + seq!['-'] + rest);
        assert(whole.last() == b.last());
        assert((words(a) + words(rest)).last() == words(rest).last());
        assert(words(whole) =~= words(a) + words(b));
    }
}

/// A word is labelled with its first letter made a capital and the rest as it is.
pub proof fn law_words_are_capitalized(key: &str, label: String)
    requires
        key@.len() > 0,
        forall|i: int| 0 <= i < key@.len() ==> #[trigger] key@[i] != '-',
        call_ensures(format_intent_label, (key,), label),
    ensures
        'a' <= key@[0] && key@[0] <= 'z' ==> label@ == seq![(key@[0] as int - 32) as char]
            + key@.skip(1),
        key@[0] as int <= 127 && !('a' <= key@[0] && key@[0] <= 'z') ==> label@ == key@,
        key@[0] as int > 127 ==> label@ == upper(key@[0]) + key@.skip(1),
{
    reveal_strlit("x-");
    assert("x-"@.len() == 2);
    if text::has_prefix(key@, "x-"@) {
        assert(key@.take(2)[1] == key@[1]);
        assert("x-"@[1] == '-');
    }
    lemma_one_word(key@);
    let parts = words(key@).map_values(|word: Seq<char>| capitalized(word));
    assert(parts =~= seq![capitalized(key@)]);
    if key@[0] as int <= 127 && !('a' <= key@[0] && key@[0] <= 'z') {
        assert(seq![key@[0]] + key@.skip(1) =~= key@);
    }
}

/// A key of several words is labelled word by word, with a space where the hyphen was.
pub proof fn law_keys_are_labelled_word_by_word(
    key: &str,
    first: &str,
    second: &str,
    label: String,
    first_label: String,
    second_label: String,
)
    requires
        key@ == first@ + seq!['-'] + second@,
        !text::has_prefix(key@, "x-"@),
        !text::has_prefix(first@, "x-"@),
        !text::has_prefix(second@, "x-"@),
        call_ensures(format_intent_label, (key,), label),
        call_ensures(format_intent_label, (first,), first_label),
        call_ensures(format_intent_label, (second,), second_label),
    ensures
        label@ == first_label@ + " "@ + second_label@,
{
    lemma_words_around_a_hyphen(first@, second@);
    lemma_words(second@);
    let a = words(first@).map_values(|word: Seq<char>| capitalized(word));
    let b = words(second@).map_values(|word: Seq<char>| capitalized(word));
    let all = words(key@).map_values(|word: Seq<char>| capitalized(word));
    assert(all =~= a + b);
    text::lemma_joined_parts(a, b, " "@);
}

/// From end to end: what a module returned without a trace is the one piece of text in the answer to
/// the request, and the answer is no error; what it failed with is the one piece of text of an answer
/// that is one.
pub proof fn law_calls_are_answered_with_what_modules_gave(
    router: &router::ExecutionRouter,
    tool: &str,
    context: Option<&Json>,
    custom: Option<&str>,
    returned: Json,
    redacted: Json,
    shown: String,
    error: router::ExecutorError,
    message: String,
    good: router::CallOutcome,
    bad: router::CallOutcome,
    trace_id: Option<&str>,
    span: &str,
    good_result: CallToolResult,
    bad_result: CallToolResult,
    id: Json,
    good_answer: Option<Json>,
    bad_answer: Option<Json>,
)
    requires
        call_ensures(router::ExecutionRouter::redact_output, (router, tool, &returned), redacted),
        call_ensures(router::ExecutionRouter::format_result, (router, &redacted, custom), shown),
        call_ensures(router::ExecutionRouter::build_error_text, (&error,), message),
        call_ensures(
            router::ExecutionRouter::render_call_outcome,
            (
                router,
                tool,
                Ok::<(Json, Option<Json>), router::ExecutorError>((returned, None)),
                context,
                custom,
            ),
            good,
        ),
        call_ensures(
            router::ExecutionRouter::render_call_outcome,
            (
                router,
                tool,
                Err::<(Json, Option<Json>), router::ExecutorError>(error),
                context,
                custom,
            ),
            bad,
        ),
        call_ensures(
            tool_result_from,
            (&good.content, good.is_error, trace_id, span),
            good_result,
        ),
        call_ensures(tool_result_from, (&bad.content, bad.is_error, trace_id, span), bad_result),
        call_ensures(server::ServerHandler::finish_call, (Some(id), &good_result), good_answer),
        call_ensures(server::ServerHandler::finish_call, (Some(id), &bad_result), bad_answer),
    ensures
        good_answer matches Some(answer) && answer@.get("id"@) == Some(id@) && (answer@.get(
            "result"@,
        ) matches Some(result) && result.get("isError"@) == Some(JsonView::Bool(false)) && (
        result.get("content"@) matches Some(JsonView::Array(pieces)) && pieces.len() == 1
            && pieces[0].get("type"@) == Some(JsonView::String("text"@)) && pieces[0].get("text"@)
            == Some(JsonView::String(shown@)))),
        bad_answer matches Some(answer) && answer@.get("id"@) == Some(id@) && (answer@.get(
            "result"@,
        ) matches Some(result) && result.get("isError"@) == Some(JsonView::Bool(true)) && (
        result.get("content"@) matches Some(JsonView::Array(pieces)) && pieces.len() == 1
            && pieces[0].get("type"@) == Some(JsonView::String("text"@)) && pieces[0].get("text"@)
            == Some(JsonView::String(message@)))),
{
    broadcast use json::group_members;

    reveal_strlit("jsonrpc");
    reveal_strlit("id");
    reveal_strlit("result");
    reveal_strlit("error");
    reveal_strlit("isError");
    reveal_strlit("content");
    reveal_strlit("type");
    reveal_strlit("text");
    assert("jsonrpc"@.len() == 7);
    assert("id"@.len() == 2);
    assert("result"@.len() == 6);
    assert("error"@.len() == 5);
    assert("isError"@.len() == 7);
    assert("content"@.len() == 7);
    assert("type"@.len() == 4);
    assert("text"@.len() == 4);
    assert("jsonrpc"@[0] != "isError"@[0]);
    assert("jsonrpc"@[0] != "content"@[0]);
    assert("isError"@[0] != "content"@[0]);
    assert("type"@[1] != "text"@[1]);
    lemma_one_text(good.content, shown@, good_result, good.is_error, trace_id, span);
    lemma_one_text(bad.content, message@, bad_result, bad.is_error, trace_id, span);
}

proof fn lemma_one_text(
    items: Vec<ContentItem>,
    shown: Seq<char>,
    result: CallToolResult,
    is_error: bool,
    trace_id: Option<&str>,
    span: &str,
)
    requires
        router::content_views(items@) == seq![router::text_item(shown)],
        call_ensures(tool_result_from, (&items, is_error, trace_id, span), result),
    ensures
        result.is_error == is_error,
        types::text_views(result.content@) == seq![
            TextView { content_type: "text"@, text: shown },
        ],
{
    let views = router::content_views(items@);
    assert(views.drop_last() =~= Seq::<ContentView>::empty());
    assert(views.last() == router::text_item(shown));
    reveal_with_fuel(texts_of, 2);
    assert(texts_of(views) =~= seq![TextView { content_type: "text"@, text: shown }]);
}

} // verus!
