//! A scripted terminal for exercising start-up: which environment a case runs in,
//! what the terminal answers to the queries that it sees, and how the outcome of a
//! run is judged.
use crate::json;
use crate::text;
use vstd::prelude::*;

verus! {

/// The keys and the paste that every case types, among them a reply that was
/// pasted and must stay text.
pub open spec fn typed() -> Seq<char> {
    "a你\x1b[200~pasted\n你好\x1b]11;rgb:ff/ff/ff\x07\x1b[201~"@
}

/// What precedes the result of a run on its line.
pub open spec fn marker() -> Seq<char> {
    "ASTRA_PROBE_RESULT="@
}

/// A change of the environment: the variable, and its value or that it is removed.
pub struct EnvChange {
    pub name: String,
    pub value: Option<String>,
}

/// What a change of the environment says.
pub type EnvChangeView = (Seq<char>, Option<Seq<char>>);

impl View for EnvChange {
    type V = EnvChangeView;

    open spec fn view(&self) -> EnvChangeView {
        (
            self.name@,
            match self.value {
                Some(value) => Some(value@),
                None => None,
            },
        )
    }
}

/// What some changes of the environment say, in order.
pub open spec fn env_views(changes: Seq<EnvChange>) -> Seq<EnvChangeView> {
    changes.map_values(|change: EnvChange| change@)
}

/// The environment of every case.
pub open spec fn common_environment(case: Seq<char>) -> Seq<EnvChangeView> {
    seq![
        ("ASTRA_TEST_TERMINAL_PROBE"@, Some(case)),
        ("ASTRA_TUI_THEME"@, Some("auto"@)),
        ("TERM"@, Some("xterm-256color"@)),
        ("COLORTERM"@, Some("truecolor"@)),
        ("NO_COLOR"@, None),
        ("ASTRA_TERMINAL_FG"@, None),
        ("ASTRA_TERMINAL_BG"@, None),
        ("COLORFGBG"@, None),
    ]
}

/// What a case adds to the environment of every case.
pub open spec fn own_environment(case: Seq<char>) -> Seq<EnvChangeView> {
    if case == "light"@ || case == "fragmented"@ {
        seq![("COLORFGBG"@, Some("15;0"@))]
    } else if case == "dark"@ || case == "malformed"@ {
        seq![("COLORFGBG"@, Some("0;15"@))]
    } else if case == "explicit"@ {
        seq![("ASTRA_TUI_THEME"@, Some("dark"@))]
    } else if case == "no_color"@ {
        seq![("NO_COLOR"@, Some("1"@))]
    } else if case == "background_override"@ {
        seq![("ASTRA_TERMINAL_BG"@, Some("#ffffff"@))]
    } else {
        Seq::empty()
    }
}

fn set(name: &str, value: &str) -> (change: EnvChange)
    ensures
        change@ == (name@, Some(value@)),
{
    EnvChange { name: name.to_owned(), value: Some(value.to_owned()) }
}

fn unset(name: &str) -> (change: EnvChange)
    ensures
        change@ == (name@, None::<Seq<char>>),
{
    EnvChange { name: name.to_owned(), value: None }
}

/// The changes that the environment of a case needs, a later one over an earlier.
pub fn environment(case: &str) -> (changes: Vec<EnvChange>)
    ensures
        env_views(changes@) == common_environment(case@) + own_environment(case@),
{
    let mut changes: Vec<EnvChange> = Vec::new();
    changes.push(set("ASTRA_TEST_TERMINAL_PROBE", case));
    changes.push(set("ASTRA_TUI_THEME", "auto"));
    changes.push(set("TERM", "xterm-256color"));
    changes.push(set("COLORTERM", "truecolor"));
    changes.push(unset("NO_COLOR"));
    changes.push(unset("ASTRA_TERMINAL_FG"));
    changes.push(unset("ASTRA_TERMINAL_BG"));
    changes.push(unset("COLORFGBG"));
    assert(env_views(changes@) =~= common_environment(case@));
    let ghost common = changes@;
    if text::same(case, "light") || text::same(case, "fragmented") {
        changes.push(set("COLORFGBG", "15;0"));
    } else if text::same(case, "dark") || text::same(case, "malformed") {
        changes.push(set("COLORFGBG", "0;15"));
    } else if text::same(case, "explicit") {
        changes.push(set("ASTRA_TUI_THEME", "dark"));
    } else if text::same(case, "no_color") {
        changes.push(set("NO_COLOR", "1"));
    } else if text::same(case, "background_override") {
        changes.push(set("ASTRA_TERMINAL_BG", "#ffffff"));
    }
    assert(env_views(changes@) =~= common_environment(case@) + own_environment(case@));
    changes
}

/// Whether the bytes of `needle`, which is ASCII, stand in `output` at `at`.
pub open spec fn seen_at(output: Seq<u8>, needle: Seq<char>, at: int) -> bool {
    &&& 0 <= at
    &&& at + needle.len() <= output.len()
    &&& forall|i: int| 0 <= i < needle.len() ==> output[at + i] == #[trigger] needle[i] as u8
}

/// Whether the bytes of `needle`, which is ASCII, stand anywhere in `output`.
pub open spec fn seen(output: Seq<u8>, needle: Seq<char>) -> bool {
    exists|at: int| #[trigger] seen_at(output, needle, at)
}

fn is_seen(output: &[u8], needle: &str) -> (found: bool)
    requires
        forall|i: int| 0 <= i < needle@.len() ==> (#[trigger] needle@[i]) as int <= 127,
    ensures
        found == seen(output@, needle@),
{
    let part = text::chars(needle);
    let length = output.len();
    if part.len() > length {
        return false;
    }
    let last = length - part.len();
    let mut at: usize = 0;
    while at <= last
        invariant
            last + part@.len() == length == output@.len(),
            part@ == needle@,
            at <= last + 1,
            forall|i: int| 0 <= i < needle@.len() ==> (#[trigger] needle@[i]) as int <= 127,
            forall|j: int| 0 <= j < at ==> !seen_at(output@, needle@, j),
        decreases last + 1 - at,
    {
        let mut i: usize = 0;
        while i < part.len() && output[at + i] == part[i] as u8
            invariant
                at <= last,
                last + part@.len() == length == output@.len(),
                part@ == needle@,
                i <= part@.len(),
                forall|k: int| 0 <= k < needle@.len() ==> (#[trigger] needle@[k]) as int <= 127,
                forall|k: int| 0 <= k < i ==> output@[at + k] == #[trigger] needle@[k] as u8,
            decreases part@.len() - i,
        {
            i = i + 1;
        }
        if i == part.len() {
            assert(seen_at(output@, needle@, at as int));
            return true;
        }
        if at == last {
            return false;
        }
        at = at + 1;
    }
    false
}

/// Something that the terminal writes, at once or byte by byte.
pub struct Reply {
    pub text: String,
    pub fragmented: bool,
}

impl View for Reply {
    type V = (Seq<char>, bool);

    open spec fn view(&self) -> (Seq<char>, bool) {
        (self.text@, self.fragmented)
    }
}

/// What some replies say, in order.
pub open spec fn reply_views(replies: Seq<Reply>) -> Seq<(Seq<char>, bool)> {
    replies.map_values(|reply: Reply| reply@)
}

/// Whether the terminal of a case leaves typing until start-up is over.
pub open spec fn types_late(case: Seq<char>) -> bool {
    case == "late"@ || case == "unsupported"@
}

/// The colors that the terminal of a case reports.
pub open spec fn colors(case: Seq<char>) -> Seq<char> {
    if case == "light"@ || case == "fragmented"@ {
        "\x1b]10;rgb:0000/0000/0000\x1b\\\x1b]11;rgb:ffff/ffff/ffff\x07"@
    } else if case == "dark"@ {
        "\x1b]11;rgb:0000/0000/0000\x1b\\\x1b]10;rgb:eeee/eeee/eeee\x07"@
    } else if case == "background_only"@ {
        "\x1b]11;rgb:ffff/ffff/ffff\x07"@
    } else if case == "malformed"@ {
        "\x1b]10;#你abc\x07\x1b]11;rgb:bad/nope/ff\x1b\\"@
    } else {
        ""@
    }
}

/// The answer to the query of device attributes.
pub open spec fn query_answer(case: Seq<char>) -> Seq<(Seq<char>, bool)> {
    let keys = if types_late(case) {
        Seq::empty()
    } else {
        seq![(typed(), false)]
    };
    let attributes = if case == "unsupported"@ {
        Seq::empty()
    } else {
        seq![("\x1b[?62;4;6c"@, false)]
    };
    keys + seq![(colors(case), case == "fragmented"@)] + attributes
}

/// What is typed once start-up is over, if it was not typed before.
pub open spec fn late_typing(case: Seq<char>) -> Seq<(Seq<char>, bool)> {
    let colors = if case == "late"@ {
        seq![("\x1b]10;rgb:00/00/00\x07\x1b]11;rgb:ff/ff/ff\x1b\\"@, false)]
    } else {
        Seq::empty()
    };
    colors + seq![(typed(), false)]
}

/// What the scripted terminal has done.
#[derive(Debug, Clone, Copy, PartialEq, Eq, Structural)]
pub struct Script {
    /// The query of device attributes was answered.
    pub replied: bool,
    /// The keys were typed.
    pub sent_input: bool,
    /// The query of the cursor was answered.
    pub cursor_replied: bool,
}

impl Script {
    /// The script after a look at all output so far, and what the terminal writes
    /// at that look.
    pub open spec fn reacted(self, case: Seq<char>, output: Seq<u8>) -> (
        Script,
        Seq<(Seq<char>, bool)>,
    ) {
        let answers = !self.replied && seen(output, "\x1b[c"@);
        let typed_already = self.sent_input || (answers && !types_late(case));
        let types = !typed_already && seen(output, "STARTUP_READY"@);
        let places = !self.cursor_replied && seen(output, "\x1b[6n"@);
        (
            Script {
                replied: self.replied || answers,
                sent_input: typed_already || types,
                cursor_replied: self.cursor_replied || places,
            },
            (if answers {
                query_answer(case)
            } else {
                Seq::empty()
            }) + (if types {
                late_typing(case)
            } else {
                Seq::empty()
            }) + (if places {
                seq![("\x1b[8;1R"@, false)]
            } else {
                Seq::empty()
            }),
        )
    }

    /// The script before any output.
    pub fn new() -> (script: Script)
        ensures
            script == (Script { replied: false, sent_input: false, cursor_replied: false }),
    {
        Script { replied: false, sent_input: false, cursor_replied: false }
    }

    /// Look at all output so far, and say what the terminal writes now.
    pub fn react(&mut self, case: &str, output: &[u8]) -> (replies: Vec<Reply>)
        ensures
            (*final(self), reply_views(replies@)) == old(self).reacted(case@, output@),
    {
        proof {
            reveal_strlit("\x1b[c");
            reveal_strlit("STARTUP_READY");
            reveal_strlit("\x1b[6n");
        }
        let mut replies: Vec<Reply> = Vec::new();
        let late = text::same(case, "late");
        let unsupported = text::same(case, "unsupported");
        if !self.replied && is_seen(output, "\x1b[c") {
            self.replied = true;
            if !late && !unsupported {
                replies.push(write(
                    "a你\x1b[200~pasted\n你好\x1b]11;rgb:ff/ff/ff\x07\x1b[201~",
                    false,
                ));
                self.sent_input = true;
            }
            replies.push(color_reply(case));
            if !unsupported {
                replies.push(write("\x1b[?62;4;6c", false));
            }
            assert(reply_views(replies@) =~= query_answer(case@));
        }
        let ghost answered = reply_views(replies@);
        if !self.sent_input && is_seen(output, "STARTUP_READY") {
            if late {
                replies.push(write("\x1b]10;rgb:00/00/00\x07\x1b]11;rgb:ff/ff/ff\x1b\\", false));
            }
            replies.push(write(
                "a你\x1b[200~pasted\n你好\x1b]11;rgb:ff/ff/ff\x07\x1b[201~",
                false,
            ));
            self.sent_input = true;
            assert(reply_views(replies@) =~= answered + late_typing(case@));
        }
        let ghost before = reply_views(replies@);
        if !self.cursor_replied && is_seen(output, "\x1b[6n") {
            replies.push(write("\x1b[8;1R", false));
            self.cursor_replied = true;
            assert(reply_views(replies@) =~= before + seq![("\x1b[8;1R"@, false)]);
        }
        assert(reply_views(replies@) =~= old(self).reacted(case@, output@).1);
        replies
    }
}

fn write(text: &str, fragmented: bool) -> (reply: Reply)
    ensures
        reply@ == (text@, fragmented),
{
    Reply { text: text.to_owned(), fragmented }
}

fn color_reply(case: &str) -> (reply: Reply)
    ensures
        reply@ == (colors(case@), case@ == "fragmented"@),
{
    let fragmented = text::same(case, "fragmented");
    if text::same(case, "light") || fragmented {
        write("\x1b]10;rgb:0000/0000/0000\x1b\\\x1b]11;rgb:ffff/ffff/ffff\x07", fragmented)
    } else if text::same(case, "dark") {
        write("\x1b]11;rgb:0000/0000/0000\x1b\\\x1b]10;rgb:eeee/eeee/eeee\x07", fragmented)
    } else if text::same(case, "background_only") {
        write("\x1b]11;rgb:ffff/ffff/ffff\x07", fragmented)
    } else if text::same(case, "malformed") {
        write("\x1b]10;#你abc\x07\x1b]11;rgb:bad/nope/ff\x1b\\", fragmented)
    } else {
        write("", fragmented)
    }
}

/// The end of the line that holds position `from`: its line feed, or the end of
/// the text.
pub open spec fn line_end(text: Seq<char>, from: int) -> int
    decreases text.len() - from,
{
    if from < 0 || from >= text.len() {
        text.len() as int
    } else if text[from] == '\n' {
        from
    } else {
        line_end(text, from + 1)
    }
}

/// The rest of the line from position `from` on, without the carriage return that
/// stands before its line feed.
pub open spec fn line_rest(text: Seq<char>, from: int) -> Seq<char> {
    let end = line_end(text, from);
    if end < text.len() && end > from && text[end - 1] == '\r' {
        text.subrange(from, end - 1)
    } else {
        text.subrange(from, end)
    }
}

/// The result that a run printed: the rest of the line behind the first marker.
pub open spec fn result_text(printed: Seq<char>) -> Option<Seq<char>> {
    if text::occurs(printed, marker()) {
        let at = choose|at: int| text::first_at(printed, marker(), at);
        Some(line_rest(printed, at + marker().len()))
    } else {
        None
    }
}

/// The result that a run printed.
pub fn result_line(printed: &str) -> (result: Option<String>)
    ensures
        match result {
            Some(line) => result_text(printed@) == Some(line@),
            None => result_text(printed@) is None,
        },
        result matches Some(line) ==> line@.len() <= printed@.len(),
{
    let at = match text::find(printed, "ASTRA_PROBE_RESULT=") {
        Some(at) => at,
        None => {
            return None;
        },
    };
    proof {
        reveal_strlit("ASTRA_PROBE_RESULT=");
        assert(marker().len() == 19);
        let chosen = choose|at: int| text::first_at(printed@, marker(), at);
        assert(text::first_at(printed@, marker(), at as int));
        assert(text::found_at(printed@, marker(), at as int));
        assert(text::found_at(printed@, marker(), chosen));
        assert(chosen == at);
    }
    let chars = text::chars(printed);
    let from = at + 19;
    let mut end: usize = from;
    while end < chars.len() && chars[end] != '\n'
        invariant
            from <= end <= chars@.len(),
            line_end(chars@, from as int) == line_end(chars@, end as int),
        decreases chars@.len() - end,
    {
        end = end + 1;
    }
    if end < chars.len() && end > from && chars[end - 1] == '\r' {
        Some(text::slice(&chars, from, end - 1))
    } else {
        Some(text::slice(&chars, from, end))
    }
}

/// What is wrong with a run.
#[derive(Debug, Clone, Copy, PartialEq, Eq, Structural)]
pub enum RunFault {
    /// The run did not succeed.
    Unsuccessful,
    /// Start-up left the terminal without its newline handling.
    NewlineHandling,
    /// The run printed no result.
    NoResult,
    /// The result is no JSON document.
    MalformedResult,
    /// The run did not restore the terminal's modes.
    NotRestored,
    /// The typed input did not arrive as the events that it stands for.
    InputChanged,
}

/// The events that the typed input stands for.
pub open spec fn typed_events() -> json::Json {
    json::Json::Array(
        seq![
            json::Json::Text("key:Char('a')"@),
            json::Json::Text("key:Char('你')"@),
            json::Json::Text("paste:pasted\n你好\x1b]11;rgb:ff/ff/ff\x07"@),
        ],
    )
}

/// How a run is judged by whether it succeeded, what it printed, and the document
/// that its result is.
pub open spec fn verdict(
    case: Seq<char>,
    success: bool,
    printed: Seq<char>,
    document: Option<json::Json>,
) -> Result<json::Json, RunFault> {
    if !success {
        Err(RunFault::Unsuccessful)
    } else if !text::occurs(printed, "STARTUP_READY\r\n"@) {
        Err(RunFault::NewlineHandling)
    } else if result_text(printed) is None {
        Err(RunFault::NoResult)
    } else {
        match document {
            None => Err(RunFault::MalformedResult),
            Some(value) => if value.field("restored"@) != Some(json::Json::Bool(true)) {
                Err(RunFault::NotRestored)
            } else if case == "abort"@ || value.field("events"@) == Some(typed_events()) {
                Ok(value)
            } else {
                Err(RunFault::InputChanged)
            },
        }
    }
}

/// The same verdict, for a document that an exec value holds.
pub open spec fn judged(
    verdict: Result<serde_json::Value, RunFault>,
    expected: Result<json::Json, RunFault>,
) -> bool {
    match verdict {
        Ok(value) => expected == Ok::<json::Json, RunFault>(json::json(value)),
        Err(fault) => expected == Err::<json::Json, RunFault>(fault),
    }
}

/// Whether a value is the JSON string `expected`.
fn is_text(value: &serde_json::Value, expected: &str) -> (equal: bool)
    ensures
        equal == (json::json(*value) == json::Json::Text(expected@)),
{
    match json::as_str(value) {
        Some(found) => text::same(found, expected),
        None => false,
    }
}

/// Whether a result lists the events that the typed input stands for.
fn lists_typed_events(value: &serde_json::Value) -> (listed: bool)
    ensures
        listed == (json::json(*value).field("events"@) == Some(typed_events())),
{
    let events = match json::get(value, "events") {
        Some(events) => events,
        None => {
            return false;
        },
    };
    match json::as_array(events) {
        Some(events) => {
            let ghost held = json::jsons(events@);
            let ghost wanted = typed_events()->Array_0;
            assert(held.len() == events@.len());
            if events.len() != 3 {
                assert(held.len() != wanted.len());
                return false;
            }
            let listed = is_text(&events[0], "key:Char('a')") && is_text(
                &events[1],
                "key:Char('你')",
            ) && is_text(&events[2], "paste:pasted\n你好\x1b]11;rgb:ff/ff/ff\x07");
            proof {
                assert(held[0] == json::json(events@[0]));
                assert(held[1] == json::json(events@[1]));
                assert(held[2] == json::json(events@[2]));
                if listed {
                    assert(held =~= wanted);
                } else {
                    assert(held != wanted);
                }
            }
            listed
        },
        None => false,
    }
}

/// Judge a run by whether it succeeded, what it printed, and the document that its
/// result is.
pub fn judge(
    case: &str,
    success: bool,
    printed: &str,
    document: Option<serde_json::Value>,
) -> (judgement: Result<serde_json::Value, RunFault>)
    ensures
        judged(
            judgement,
            verdict(
                case@,
                success,
                printed@,
                match document {
                    Some(value) => Some(json::json(value)),
                    None => None,
                },
            ),
        ),
{
    if !success {
        return Err(RunFault::Unsuccessful);
    }
    if !text::contains(printed, "STARTUP_READY\r\n") {
        return Err(RunFault::NewlineHandling);
    }
    if result_line(printed).is_none() {
        return Err(RunFault::NoResult);
    }
    let value = match document {
        Some(value) => value,
        None => {
            return Err(RunFault::MalformedResult);
        },
    };
    let restored = match json::get(&value, "restored") {
        Some(restored) => json::as_bool(restored),
        None => None,
    };
    if restored != Some(true) {
        return Err(RunFault::NotRestored);
    }
    if text::same(case, "abort") || lists_typed_events(&value) {
        Ok(value)
    } else {
        Err(RunFault::InputChanged)
    }
}

/// Judge a run by whether it succeeded and the bytes that it printed.
pub fn case_outcome(case: &str, success: bool, output: &[u8]) -> (judgement: Result<
    serde_json::Value,
    RunFault,
>)
    requires
        output@.len() <= json::MAX_DOCUMENT_CHARS,
    ensures
        judged(
            judgement,
            verdict(
                case@,
                success,
                text::lossy_text(output@),
                match result_text(text::lossy_text(output@)) {
                    Some(line) => json::document(line),
                    None => None,
                },
            ),
        ),
{
    let printed = text::from_utf8_lossy(output);
    let document = match result_line(&printed) {
        Some(line) => match json::parse(&line) {
            Ok(value) => Some(value),
            Err(_) => None,
        },
        None => None,
    };
    judge(case, success, &printed, document)
}

/// Nothing is answered twice: a second look at the same output writes nothing and
/// changes nothing.
pub proof fn reactions_settle(script: Script, case: Seq<char>, output: Seq<u8>)
    ensures
        script.reacted(case, output).0.reacted(case, output) == (
            script.reacted(case, output).0,
            Seq::<(Seq<char>, bool)>::empty(),
        ),
{
    assert(script.reacted(case, output).0.reacted(case, output).1 =~= Seq::<
        (Seq<char>, bool),
    >::empty());
}

/// What was done stays done, and once everything was done nothing is written,
/// whatever else the run prints.
pub proof fn finished_scripts_are_silent(script: Script, case: Seq<char>, output: Seq<u8>)
    ensures
        script.replied ==> script.reacted(case, output).0.replied,
        script.sent_input ==> script.reacted(case, output).0.sent_input,
        script.cursor_replied ==> script.reacted(case, output).0.cursor_replied,
        script.replied && script.sent_input && script.cursor_replied ==> script.reacted(
            case,
            output,
        ) == (script, Seq::<(Seq<char>, bool)>::empty()),
{
    if script.replied && script.sent_input && script.cursor_replied {
        assert(script.reacted(case, output).1 =~= Seq::<(Seq<char>, bool)>::empty());
    }
}

/// Output that was seen stays seen as more is printed.
proof fn seen_grows(output: Seq<u8>, more: Seq<u8>, needle: Seq<char>)
    requires
        seen(output, needle),
    ensures
        seen(output + more, needle),
{
    let at = choose|at: int| #[trigger] seen_at(output, needle, at);
    assert(seen_at(output + more, needle, at));
}

/// The number of looks does not matter: a look at part of the output, followed by
/// one at all of it, leaves the script where a single look would.
pub proof fn looks_can_be_split(script: Script, case: Seq<char>, output: Seq<u8>, more: Seq<u8>)
    ensures
        script.reacted(case, output).0.reacted(case, output + more).0 == script.reacted(
            case,
            output + more,
        ).0,
{
    if seen(output, "\x1b[c"@) {
        seen_grows(output, more, "\x1b[c"@);
    }
    if seen(output, "STARTUP_READY"@) {
        seen_grows(output, more, "STARTUP_READY"@);
    }
    if seen(output, "\x1b[6n"@) {
        seen_grows(output, more, "\x1b[6n"@);
    }
}

/// The names of the cases differ.
proof fn cases_differ()
    ensures
        "late"@ != "unsupported"@,
        "late"@ != "fragmented"@,
        "unsupported"@ != "fragmented"@,
        "light"@ != "late"@,
        "light"@ != "fragmented"@,
{
    reveal_strlit("late");
    reveal_strlit("unsupported");
    reveal_strlit("fragmented");
    reveal_strlit("light");
    assert("late"@.len() == 4);
    assert("unsupported"@.len() == 11);
    assert("fragmented"@.len() == 10);
    assert("light"@.len() == 5);
}

/// The query of device attributes is answered once it is seen: with the colors, byte by byte
/// in one case only, and with the attributes unless the terminal does not support them. In
/// every case but two the keys are typed before that answer.
pub proof fn queries_are_answered_in_order(script: Script, case: Seq<char>, output: Seq<u8>)
    requires
        !script.replied,
        seen(output, "\x1b[c"@),
    ensures
        ({
            let (next, replies) = script.reacted(case, output);
            &&& next.replied
            &&& case != "late"@ && case != "unsupported"@ ==> {
                &&& next.sent_input
                &&& replies.len() >= 3
                &&& replies[0] == (typed(), false)
                &&& replies[1] == (colors(case), case == "fragmented"@)
                &&& replies[2] == ("\x1b[?62;4;6c"@, false)
            }
            &&& case == "late"@ ==> {
                &&& replies.len() >= 2
                &&& replies[0] == (colors(case), false)
                &&& replies[1] == ("\x1b[?62;4;6c"@, false)
            }
            &&& case == "unsupported"@ ==> {
                &&& replies.len() >= 1
                &&& replies[0] == (colors(case), false)
            }
        }),
{
    cases_differ();
}

/// Once start-up is over the keys have been typed, in every case, and only once: where they
/// were not typed before, they are what is typed then, after the late colors in one case.
pub proof fn keys_are_typed_by_the_end_of_startup(
    script: Script,
    case: Seq<char>,
    output: Seq<u8>,
)
    requires
        seen(output, "STARTUP_READY"@),
    ensures
        script.reacted(case, output).0.sent_input,
        !script.sent_input && script.replied && script.cursor_replied ==> script.reacted(
            case,
            output,
        ).1 == (if case == "late"@ {
            seq![
                ("\x1b]10;rgb:00/00/00\x07\x1b]11;rgb:ff/ff/ff\x1b\\"@, false),
                (typed(), false),
            ]
        } else {
            seq![(typed(), false)]
        }),
        script.sent_input && script.replied && script.cursor_replied ==> script.reacted(
            case,
            output,
        ).1.len() == 0,
{
    if !script.sent_input && script.replied && script.cursor_replied {
        assert(script.reacted(case, output).1 =~= late_typing(case));
        assert(late_typing(case) =~= if case == "late"@ {
            seq![
                ("\x1b]10;rgb:00/00/00\x07\x1b]11;rgb:ff/ff/ff\x1b\\"@, false),
                (typed(), false),
            ]
        } else {
            seq![(typed(), false)]
        });
    }
}

/// The terminal only reacts: where none of the queries and no end of start-up is seen, it
/// writes nothing and does nothing. The query of the cursor is answered last.
pub proof fn the_terminal_only_reacts(script: Script, case: Seq<char>, output: Seq<u8>)
    ensures
        !seen(output, "\x1b[c"@) && !seen(output, "STARTUP_READY"@) && !seen(output, "\x1b[6n"@)
            ==> script.reacted(case, output) == (script, Seq::<(Seq<char>, bool)>::empty()),
        !script.cursor_replied && seen(output, "\x1b[6n"@) ==> {
            let (next, replies) = script.reacted(case, output);
            &&& next.cursor_replied
            &&& replies.len() > 0
            &&& replies.last() == ("\x1b[8;1R"@, false)
        },
        !seen(output, "\x1b[6n"@) ==> script.reacted(case, output).0.cursor_replied
            == script.cursor_replied,
        !seen(output, "\x1b[c"@) ==> script.reacted(case, output).0.replied == script.replied,
{
    if !seen(output, "\x1b[c"@) && !seen(output, "STARTUP_READY"@) && !seen(output, "\x1b[6n"@) {
        assert(script.reacted(case, output).1 =~= Seq::<(Seq<char>, bool)>::empty());
    }
}

/// A text is seen wherever its bytes stand in the output, whatever comes before and after.
pub proof fn texts_are_seen_anywhere(needle: Seq<char>, before: Seq<u8>, after: Seq<u8>)
    ensures
        seen(before + Seq::new(needle.len(), |i: int| needle[i] as u8) + after, needle),
        needle.len() > 0 ==> !seen(Seq::empty(), needle),
{
    let bytes = Seq::new(needle.len(), |i: int| needle[i] as u8);
    assert(seen_at(before + bytes + after, needle, before.len() as int));
}

/// Only the cases about colors report any: the light ones black on white, the dark one the
/// other way, one the background only, and one what is no color.
pub proof fn only_color_cases_report_colors(case: Seq<char>)
    requires
        case != "light"@,
        case != "fragmented"@,
        case != "dark"@,
        case != "background_only"@,
        case != "malformed"@,
    ensures
        colors(case).len() == 0,
        colors("light"@) == colors("fragmented"@),
{
    reveal_strlit("");
    cases_differ();
}

/// Every case has the common environment, under its own name; seven cases change one
/// variable of it, and no other case changes any.
pub proof fn environments_differ_in_one_variable(case: Seq<char>)
    ensures
        common_environment(case)[0] == ("ASTRA_TEST_TERMINAL_PROBE"@, Some(case)),
        forall|i: int|
            1 <= i < common_environment(case).len() ==> #[trigger] common_environment(case)[i]
                == common_environment(Seq::empty())[i],
        own_environment(case).len() <= 1,
        own_environment(case).len() == 1 <==> case == "light"@ || case == "fragmented"@ || case
            == "dark"@ || case == "malformed"@ || case == "explicit"@ || case == "no_color"@
            || case == "background_override"@,
{
}

/// The end of a line is found, where no line feed stands before it.
proof fn line_ends_at(text: Seq<char>, from: int, end: int)
    requires
        0 <= from <= end <= text.len(),
        forall|i: int| from <= i < end ==> text[i] != '\n',
        end < text.len() ==> text[end] == '\n',
    ensures
        line_end(text, from) == end,
    decreases end - from,
{
    if from < end {
        line_ends_at(text, from + 1, end);
    }
}

/// A result is read back as it was printed: behind the first marker, up to the end of its
/// line, however the line ends.
pub proof fn results_read_back(before: Seq<char>, line: Seq<char>, after: Seq<char>)
    requires
        forall|i: int| 0 <= i < line.len() ==> line[i] != '\n',
    ensures
        ({
            let printed = before + marker() + line + "\r\n"@ + after;
            text::first_at(printed, marker(), before.len() as int) ==> result_text(printed) == Some(
                line,
            )
        }),
        ({
            let printed = before + marker() + line + "\n"@ + after;
            text::first_at(printed, marker(), before.len() as int) && (line.len() == 0
                || line.last() != '\r') ==> result_text(printed) == Some(line)
        }),
        ({
            let printed = before + marker() + line;
            text::first_at(printed, marker(), before.len() as int) ==> result_text(printed) == Some(
                line,
            )
        }),
{
    reveal_strlit("\r\n");
    reveal_strlit("\n");
    let from = (before.len() + marker().len()) as int;
    let returned = before + marker() + line + "\r\n"@ + after;
    if text::first_at(returned, marker(), before.len() as int) {
        first_marker(returned, before.len() as int);
        assert(returned[from + line.len()] == '\r');
        assert(returned[from + line.len() + 1] == '\n');
        assert forall|i: int| from <= i < from + line.len() + 1 implies returned[i] != '\n' by {
            if i < from + line.len() {
                assert(returned[i] == line[i - from]);
            }
        }
        line_ends_at(returned, from, from + line.len() + 1);
        assert(returned.subrange(from, from + line.len()) =~= line);
    }
    let fed = before + marker() + line + "\n"@ + after;
    if text::first_at(fed, marker(), before.len() as int) {
        first_marker(fed, before.len() as int);
        assert(fed[from + line.len()] == '\n');
        assert forall|i: int| from <= i < from + line.len() implies fed[i] != '\n' by {
            assert(fed[i] == line[i - from]);
        }
        line_ends_at(fed, from, from + line.len());
        if line.len() > 0 {
            assert(fed[from + line.len() - 1] == line.last());
        }
        assert(fed.subrange(from, from + line.len()) =~= line);
    }
    let open = before + marker() + line;
    if text::first_at(open, marker(), before.len() as int) {
        first_marker(open, before.len() as int);
        assert forall|i: int| from <= i < from + line.len() implies open[i] != '\n' by {
            assert(open[i] == line[i - from]);
        }
        line_ends_at(open, from, from + line.len());
        assert(open.subrange(from, from + line.len()) =~= line);
    }
}

/// The first marker is the one that the result is read behind.
proof fn first_marker(printed: Seq<char>, at: int)
    requires
        text::first_at(printed, marker(), at),
    ensures
        result_text(printed) == Some(line_rest(printed, at + marker().len())),
{
    assert(text::found_at(printed, marker(), at));
    let chosen = choose|at: int| text::first_at(printed, marker(), at);
    assert(text::first_at(printed, marker(), chosen));
    assert(text::found_at(printed, marker(), chosen));
}

/// A run passes exactly where it succeeded, handled newlines, printed a document, restored
/// the terminal and, unless it was to be aborted, told the input as it was typed; its
/// document is handed out as it is. The first thing that is wrong is named.
pub proof fn runs_pass_with_everything_right(
    case: Seq<char>,
    success: bool,
    printed: Seq<char>,
    document: Option<json::Json>,
)
    ensures
        verdict(case, success, printed, document) is Ok <==> {
            &&& success
            &&& text::occurs(printed, "STARTUP_READY\r\n"@)
            &&& text::occurs(printed, "ASTRA_PROBE_RESULT="@)
            &&& document is Some
            &&& document->0.field("restored"@) == Some(json::Json::Bool(true))
            &&& case == "abort"@ || document->0.field("events"@) == Some(typed_events())
        },
        verdict(case, success, printed, document) matches Ok(value) ==> document == Some(value),
        !success ==> verdict(case, success, printed, document) == Err::<json::Json, _>(
            RunFault::Unsuccessful,
        ),
        success && !text::occurs(printed, "STARTUP_READY\r\n"@) ==> verdict(
            case,
            success,
            printed,
            document,
        ) == Err::<json::Json, _>(RunFault::NewlineHandling),
        success && text::occurs(printed, "STARTUP_READY\r\n"@) && !text::occurs(
            printed,
            "ASTRA_PROBE_RESULT="@,
        ) ==> verdict(case, success, printed, document) == Err::<json::Json, _>(
            RunFault::NoResult,
        ),
        success && text::occurs(printed, "STARTUP_READY\r\n"@) && text::occurs(
            printed,
            "ASTRA_PROBE_RESULT="@,
        ) ==> {
            &&& document is None ==> verdict(case, success, printed, document) == Err::<
                json::Json,
                _,
            >(RunFault::MalformedResult)
            &&& document is Some && document->0.field("restored"@) != Some(json::Json::Bool(true))
                ==> verdict(case, success, printed, document) == Err::<json::Json, _>(
                RunFault::NotRestored,
            )
            &&& document is Some && document->0.field("restored"@) == Some(json::Json::Bool(true))
                && case != "abort"@ && document->0.field("events"@) != Some(typed_events())
                ==> verdict(case, success, printed, document) == Err::<json::Json, _>(
                RunFault::InputChanged,
            )
        },
{
}

/// The call that reads a result reads it back as it was printed, and reads none where no
/// marker stands.
pub proof fn reading_finds_the_printed_line(
    printed: &str,
    result: Option<String>,
    before: Seq<char>,
    line: Seq<char>,
    after: Seq<char>,
)
    requires
        call_ensures(result_line, (printed,), result),
        printed@ == before + marker() + line + "\r\n"@ + after,
        text::first_at(printed@, marker(), before.len() as int),
        forall|i: int| 0 <= i < line.len() ==> line[i] != '\n',
    ensures
        result is Some && result->0@ == line,
{
    results_read_back(before, line, after);
}

/// The call that judges a run hands out its document exactly where everything is right.
pub proof fn judging_hands_out_the_document(
    case: &str,
    success: bool,
    printed: &str,
    document: serde_json::Value,
    judgement: Result<serde_json::Value, RunFault>,
)
    requires
        call_ensures(judge, (case, success, printed, Some(document)), judgement),
    ensures
        judgement is Ok <==> {
            &&& success
            &&& text::occurs(printed@, "STARTUP_READY\r\n"@)
            &&& text::occurs(printed@, "ASTRA_PROBE_RESULT="@)
            &&& json::json(document).field("restored"@) == Some(json::Json::Bool(true))
            &&& case@ == "abort"@ || json::json(document).field("events"@) == Some(typed_events())
        },
        judgement matches Ok(value) ==> json::json(value) == json::json(document),
        !success ==> judgement == Err::<serde_json::Value, _>(RunFault::Unsuccessful),
{
    runs_pass_with_everything_right(case@, success, printed@, Some(json::json(document)));
}

/// The call that makes an environment names the case first, and adds at most one change to
/// the eight that every case has.
pub proof fn environments_name_their_case(case: &str, changes: Vec<EnvChange>)
    requires
        call_ensures(environment, (case,), changes),
    ensures
        8 <= changes@.len() <= 9,
        changes@[0].name@ == "ASTRA_TEST_TERMINAL_PROBE"@,
        changes@[0].value is Some && changes@[0].value->0@ == case@,
{
    environments_differ_in_one_variable(case@);
    assert(env_views(changes@).len() == changes@.len());
    assert(env_views(changes@)[0] == common_environment(case@)[0]);
    assert(env_views(changes@)[0] == changes@[0]@);
}

/// The call by which the terminal reacts answers a query that it sees, once, and types the
/// keys by the end of start-up.
pub proof fn reacting_answers_once(
    script: &mut Script,
    case: &str,
    output: &[u8],
    replies: Vec<Reply>,
)
    requires
        call_ensures(Script::react, (script, case, output), replies),
    ensures
        seen(output@, "\x1b[c"@) ==> final(script).replied,
        seen(output@, "STARTUP_READY"@) ==> final(script).sent_input,
        seen(output@, "\x1b[6n"@) ==> final(script).cursor_replied,
        old(script).replied && old(script).sent_input && old(script).cursor_replied
            ==> replies@.len() == 0,
        !seen(output@, "\x1b[c"@) && !seen(output@, "STARTUP_READY"@) && !seen(
            output@,
            "\x1b[6n"@,
        ) ==> replies@.len() == 0 && *final(script) == *old(script),
{
    finished_scripts_are_silent(*old(script), case@, output@);
    the_terminal_only_reacts(*old(script), case@, output@);
    assert(reply_views(replies@).len() == replies@.len());
}

/// The call that judges the bytes of a run judges the document of its marked line: a run that
/// did not succeed fails, and so does one without a marked line.
pub proof fn runs_are_judged_by_their_line(
    case: &str,
    success: bool,
    output: &[u8],
    judgement: Result<serde_json::Value, RunFault>,
)
    requires
        call_ensures(case_outcome, (case, success, output), judgement),
    ensures
        !success ==> judgement == Err::<serde_json::Value, _>(RunFault::Unsuccessful),
        !text::occurs(text::lossy_text(output@), "ASTRA_PROBE_RESULT="@) ==> judgement is Err,
        judgement matches Ok(value) ==> {
            &&& result_text(text::lossy_text(output@)) is Some
            &&& json::document(result_text(text::lossy_text(output@))->0) == Some(
                json::json(value),
            )
            &&& json::json(value).field("restored"@) == Some(json::Json::Bool(true))
        },
{
}

} // verus!
