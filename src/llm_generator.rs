//! What a generated command is made of, and how generation requests and
//! replies are shaped.

use crate::text::{
    concat, concat3, contains, decimal, decimal_of, has_infix, has_prefix, join, joined, lower_of, lowercase, split_whitespace,
    starts_with, text_eq, texts_view, words_of,
};
use vstd::prelude::*;

verus! {

/// One capability a generated script asks the sandbox for, with the reason
/// shown to the user.
#[derive(Debug)]
pub struct PermissionRequest {
    pub permission: String,
    pub reason: String,
}

pub ghost struct PermissionRequestView {
    pub permission: Seq<char>,
    pub reason: Seq<char>,
}

impl View for PermissionRequest {
    type V = PermissionRequestView;

    open spec fn view(&self) -> PermissionRequestView {
        PermissionRequestView { permission: self.permission@, reason: self.reason@ }
    }
}

impl Clone for PermissionRequest {
    fn clone(&self) -> (r: Self)
        ensures
            r@ == self@,
    {
        PermissionRequest { permission: self.permission.clone(), reason: self.reason.clone() }
    }
}

/// The view of a list of permission requests.
pub open spec fn permissions_view(ps: Seq<PermissionRequest>) -> Seq<PermissionRequestView> {
    ps.map_values(|p: PermissionRequest| p@)
}

/// Copies a list of permission requests.
pub fn clone_permissions(ps: &Vec<PermissionRequest>) -> (r: Vec<PermissionRequest>)
    ensures
        permissions_view(r@) == permissions_view(ps@),
{
    let mut r: Vec<PermissionRequest> = Vec::new();
    let mut i: usize = 0;
    while i < ps.len()
        invariant
            i <= ps.len(),
            r@.len() == i,
            forall|j: int| 0 <= j < i ==> (#[trigger] r@[j])@ == ps@[j]@,
        decreases ps.len() - i,
    {
        r.push(ps[i].clone());
        i = i + 1;
    }
    assert(permissions_view(r@) =~= permissions_view(ps@));
    r
}

/// A command as the cache knows it: its metadata and the name of the
/// script file that holds its code.
#[derive(Debug)]
pub struct GeneratedCommand {
    pub name: String,
    pub description: String,
    pub script_file: String,
    pub permissions: Vec<PermissionRequest>,
}

pub ghost struct GeneratedCommandView {
    pub name: Seq<char>,
    pub description: Seq<char>,
    pub script_file: Seq<char>,
    pub permissions: Seq<PermissionRequestView>,
}

impl View for GeneratedCommand {
    type V = GeneratedCommandView;

    open spec fn view(&self) -> GeneratedCommandView {
        GeneratedCommandView {
            name: self.name@,
            description: self.description@,
            script_file: self.script_file@,
            permissions: permissions_view(self.permissions@),
        }
    }
}

impl Clone for GeneratedCommand {
    fn clone(&self) -> (r: Self)
        ensures
            r@ == self@,
    {
        GeneratedCommand {
            name: self.name.clone(),
            description: self.description.clone(),
            script_file: self.script_file.clone(),
            permissions: clone_permissions(&self.permissions),
        }
    }
}

/// A generated command together with the code of its script.
#[derive(Debug)]
pub struct GenerationResult {
    pub command: GeneratedCommand,
    pub script_content: String,
}

pub ghost struct GenerationResultView {
    pub command: GeneratedCommandView,
    pub script_content: Seq<char>,
}

impl View for GenerationResult {
    type V = GenerationResultView;

    open spec fn view(&self) -> GenerationResultView {
        GenerationResultView { command: self.command@, script_content: self.script_content@ }
    }
}

/// Why a command could not be generated.
#[derive(Debug)]
pub enum GeneratorError {
    /// No credential for the generation service is configured.
    MissingApiKey,
    /// The service could not be reached or answered with a failure.
    Service { message: String },
    /// The reply did not hold a command in the expected shape; `raw` is the
    /// reply as received.
    Schema { raw: String },
}

/// Something that makes commands from a name and arguments.
pub trait CommandGenerator {
    fn generate_command(&self, command_name: &str, args: &Vec<String>) -> Result<
        GenerationResult,
        GeneratorError,
    >;
}

/// A generator that answers from a fixed table, for runs without the
/// generation service.
pub struct MockGenerator;

/// What the fixed table gives for a command: description, script, and
/// permissions.
pub ghost struct MockReply {
    pub description: Seq<char>,
    pub script: Seq<char>,
    pub permissions: Seq<PermissionRequestView>,
}

pub open spec fn request_view(permission: Seq<char>, reason: Seq<char>) -> PermissionRequestView {
    PermissionRequestView { permission, reason }
}

/// The table behind `mock_generate_command`.
pub open spec fn mock_reply_for_name(name: Seq<char>) -> MockReply {
    if has_prefix(name, "git-"@) {
        let action = name.subrange(4, name.len() as int);
        MockReply {
            description: "Custom git command for "@ + action,
            script: "const proc = new Deno.Command('git', { args: ['"@ + action
                + "', ...Deno.args] }); await proc.output();"@,
            permissions: seq![
                request_view(
                    "--allow-run=git"@,
                    "Execute git commands to perform version control operations"@,
                ),
            ],
        }
    } else if name == "hello"@ {
        MockReply {
            description: "Greet the user"@,
            script: "console.log(`Hello from ergo! Arguments: ${Deno.args.join(' ')}`);"@,
            permissions: seq![],
        }
    } else if name == "timestamp"@ {
        MockReply {
            description: "Show current timestamp"@,
            script: TIMESTAMP_SCRIPT@,
            permissions: seq![],
        }
    } else if name == "project-info"@ {
        MockReply {
            description: "Show project information"@,
            script: PROJECT_INFO_SCRIPT@,
            permissions: seq![
                request_view("--allow-read"@, "Read files in the current directory to count them"@),
                request_view("--allow-run=git"@, "Run git commands to determine the current branch"@),
            ],
        }
    } else if name == "weather"@ {
        MockReply {
            description: "Get current weather"@,
            script: WEATHER_SCRIPT@,
            permissions: seq![
                request_view("--allow-net=wttr.in"@, "Access weather data from the wttr.in service"@),
            ],
        }
    } else if name == "uuid"@ {
        MockReply {
            description: "Generate a UUID"@,
            script: "console.log(crypto.randomUUID());"@,
            permissions: seq![],
        }
    } else {
        MockReply {
            description: "Generated command for "@ + name,
            script: "console.log('This is a generated command: "@ + name + "');"@,
            permissions: seq![],
        }
    }
}

/// The mock script of `timestamp`.
pub const TIMESTAMP_SCRIPT: &'static str = "const now = new Date(); console.log(now.toISOString().replace('T', '_').replace(/:/g, '-').split('.')[0]);";

/// The mock script of `project-info`.
pub const PROJECT_INFO_SCRIPT: &'static str = r#"
                try {
                    const cwd = Deno.cwd();
                    const projectName = cwd.split('/').pop() || 'unknown';
                    console.log(`Project: ${projectName}`);
                    
                    try {
                        const git = new Deno.Command('git', { args: ['branch', '--show-current'] });
                        const gitOutput = await git.output();
                        const branch = new TextDecoder().decode(gitOutput.stdout).trim();
                        console.log(`Git branch: ${branch || 'not a git repo'}`);
                    } catch {
                        console.log('Git branch: not a git repo');
                    }
                    
                    let fileCount = 0;
                    for await (const entry of Deno.readDir('.')) {
                        if (entry.isFile) fileCount++;
                    }
                    console.log(`Files: ${fileCount}`);
                } catch (error) {
                    console.error('Error:', error.message);
                }
                "#;

/// The mock script of `weather`.
pub const WEATHER_SCRIPT: &'static str = r#"
                const response = await fetch('https://wttr.in/?format=%l:+%c+%t');
                const weather = await response.text();
                console.log(`Weather: ${weather.trim()}`);
                "#;

/// Builds a permission request from two texts.
fn request(permission: &str, reason: &str) -> (r: PermissionRequest)
    ensures
        r@ == request_view(permission@, reason@),
{
    PermissionRequest { permission: String::from_str(permission), reason: String::from_str(reason) }
}

/// The result that files `reply` as command `name`.
pub open spec fn mock_result(name: Seq<char>, reply: MockReply) -> GenerationResultView {
    GenerationResultView {
        command: GeneratedCommandView {
            name,
            description: reply.description,
            script_file: name + ".ts"@,
            permissions: reply.permissions,
        },
        script_content: reply.script,
    }
}

/// The name the fixed table suggests for a description that matches none of
/// its topics: the first three words, joined by dashes, in lower case.
pub open spec fn fallback_name(description: Seq<char>) -> Seq<char> {
    let w = words_of(description);
    lower_of(joined(w.subrange(0, if w.len() < 3 { w.len() as int } else { 3 }), "-"@))
}

/// The table behind `mock_generate_from_description`: the suggested name
/// and the reply.
pub open spec fn mock_reply_for_description(d: Seq<char>) -> (Seq<char>, MockReply) {
    if has_infix(d, "timestamp"@) || has_infix(d, "time"@) {
        (
            "show-time"@,
            MockReply {
                description: "Display current timestamp"@,
                script: "const now = new Date(); console.log(now.toISOString());"@,
                permissions: seq![],
            },
        )
    } else if (has_infix(d, "json"@) && has_infix(d, "format"@)) || (has_infix(d, "JSON"@)
        && has_infix(d, "format"@)) {
        (
            "format-json"@,
            MockReply {
                description: "Format JSON input with proper indentation"@,
                script: FORMAT_JSON_SCRIPT@,
                permissions: seq![],
            },
        )
    } else if has_infix(d, "list"@) && has_infix(d, "file"@) {
        (
            "list-files"@,
            MockReply {
                description: "List files in current directory"@,
                script: LIST_FILES_SCRIPT@,
                permissions: seq![
                    request_view("--allow-read"@, "Read directory contents to list files"@),
                ],
            },
        )
    } else if has_infix(d, "random"@) || has_infix(d, "uuid"@) || has_infix(d, "UUID"@) {
        (
            "generate-id"@,
            MockReply {
                description: "Generate a random UUID"@,
                script: "console.log(crypto.randomUUID());"@,
                permissions: seq![],
            },
        )
    } else if has_infix(d, "hello"@) || has_infix(d, "greet"@) {
        (
            "greet-user"@,
            MockReply {
                description: "Greet the user"@,
                script: "console.log('Hello! This command was generated from your description.');"@,
                permissions: seq![],
            },
        )
    } else {
        (
            fallback_name(d),
            MockReply {
                description: "Generated command from: "@ + d,
                script: "console.log('Mock command for: "@ + d + "');"@,
                permissions: seq![],
            },
        )
    }
}

/// The mock script of `format-json`.
pub const FORMAT_JSON_SCRIPT: &'static str = "try { const data = JSON.parse(Deno.args[0] || '{}'); console.log(JSON.stringify(data, null, 2)); } catch (err) { console.error('Invalid JSON:', err.message); }";

/// The mock script of `list-files`.
pub const LIST_FILES_SCRIPT: &'static str = "try { for await (const entry of Deno.readDir('.')) { console.log(entry.name); } } catch (err) { console.error(err); }";

impl MockGenerator {
    pub fn new() -> (r: Self)
        ensures
            r == MockGenerator,
    {
        MockGenerator
    }

    /// The fixed table's command for `command_name`; the arguments play no
    /// part.
    pub fn mock_generate_command(&self, command_name: &str, _args: &Vec<String>) -> (r:
        GenerationResult)
        ensures
            r@ == mock_result(command_name@, mock_reply_for_name(command_name@)),
    {
        let name = command_name;
        let description: String;
        let script: String;
        let mut permissions: Vec<PermissionRequest> = Vec::new();
        if starts_with(name, "git-") {
            proof {
                reveal_strlit("git-");
            }
            let action = name.substring_char(4, name.unicode_len());
            description = concat("Custom git command for ", action);
            script = concat3(
                "const proc = new Deno.Command('git', { args: ['",
                action,
                "', ...Deno.args] }); await proc.output();",
            );
            permissions.push(
                request(
                    "--allow-run=git",
                    "Execute git commands to perform version control operations",
                ),
            );
        } else if text_eq(name, "hello") {
            description = String::from_str("Greet the user");
            script = String::from_str(
                "console.log(`Hello from ergo! Arguments: ${Deno.args.join(' ')}`);",
            );
        } else if text_eq(name, "timestamp") {
            description = String::from_str("Show current timestamp");
            script = String::from_str(TIMESTAMP_SCRIPT);
        } else if text_eq(name, "project-info") {
            description = String::from_str("Show project information");
            script = String::from_str(PROJECT_INFO_SCRIPT);
            permissions.push(
                request("--allow-read", "Read files in the current directory to count them"),
            );
            permissions.push(
                request("--allow-run=git", "Run git commands to determine the current branch"),
            );
        } else if text_eq(name, "weather") {
            description = String::from_str("Get current weather");
            script = String::from_str(WEATHER_SCRIPT);
            permissions.push(
                request("--allow-net=wttr.in", "Access weather data from the wttr.in service"),
            );
        } else if text_eq(name, "uuid") {
            description = String::from_str("Generate a UUID");
            script = String::from_str("console.log(crypto.randomUUID());");
        } else {
            description = concat("Generated command for ", name);
            script = concat3("console.log('This is a generated command: ", name, "');");
        }
        let result = GenerationResult {
            command: GeneratedCommand {
                name: String::from_str(name),
                description,
                script_file: concat(name, ".ts"),
                permissions,
            },
            script_content: script,
        };
        proof {
            assert(permissions_view(result.command.permissions@) =~= mock_reply_for_name(
                name@,
            ).permissions);
        }
        result
    }

    /// The fixed table's command for a description: a topic found in it
    /// picks a name and a script; otherwise the name comes from its first
    /// words.
    pub fn mock_generate_from_description(&self, description: &str) -> (r: GenerationResult)
        ensures
            r@ == mock_result(
                mock_reply_for_description(description@).0,
                mock_reply_for_description(description@).1,
            ),
    {
        let d = description;
        let command_name: String;
        let desc_text: String;
        let script: String;
        let mut permissions: Vec<PermissionRequest> = Vec::new();
        if contains(d, "timestamp") || contains(d, "time") {
            command_name = String::from_str("show-time");
            desc_text = String::from_str("Display current timestamp");
            script = String::from_str("const now = new Date(); console.log(now.toISOString());");
        } else if (contains(d, "json") && contains(d, "format")) || (contains(d, "JSON") && contains(
            d,
            "format",
        )) {
            command_name = String::from_str("format-json");
            desc_text = String::from_str("Format JSON input with proper indentation");
            script = String::from_str(FORMAT_JSON_SCRIPT);
        } else if contains(d, "list") && contains(d, "file") {
            command_name = String::from_str("list-files");
            desc_text = String::from_str("List files in current directory");
            script = String::from_str(LIST_FILES_SCRIPT);
            permissions.push(request("--allow-read", "Read directory contents to list files"));
        } else if contains(d, "random") || contains(d, "uuid") || contains(d, "UUID") {
            command_name = String::from_str("generate-id");
            desc_text = String::from_str("Generate a random UUID");
            script = String::from_str("console.log(crypto.randomUUID());");
        } else if contains(d, "hello") || contains(d, "greet") {
            command_name = String::from_str("greet-user");
            desc_text = String::from_str("Greet the user");
            script = String::from_str(
                "console.log('Hello! This command was generated from your description.');",
            );
        } else {
            let words = split_whitespace(d);
            let mut first: Vec<String> = Vec::new();
            let mut i: usize = 0;
            while i < words.len() && i < 3
                invariant
                    i <= words@.len(),
                    i <= 3,
                    texts_view(first@) == texts_view(words@).subrange(0, i as int),
                decreases words.len() - i,
            {
                let ghost before = first@;
                first.push(words[i].clone());
                proof {
                    assert(texts_view(first@) =~= texts_view(before).push(words@[i as int]@));
                    assert(texts_view(words@).subrange(0, i + 1) =~= texts_view(words@).subrange(
                        0,
                        i as int,
                    ).push(words@[i as int]@));
                }
                i = i + 1;
            }
            let dashed = join(&first, "-");
            command_name = lowercase(dashed.as_str());
            desc_text = concat("Generated command from: ", d);
            script = concat3("console.log('Mock command for: ", d, "');");
        }
        let result = GenerationResult {
            command: GeneratedCommand {
                script_file: concat(command_name.as_str(), ".ts"),
                name: command_name,
                description: desc_text,
                permissions,
            },
            script_content: script,
        };
        proof {
            assert(permissions_view(result.command.permissions@) =~= mock_reply_for_description(
                d@,
            ).1.permissions);
        }
        result
    }
}

impl CommandGenerator for MockGenerator {
    fn generate_command(&self, command_name: &str, args: &Vec<String>) -> (r: Result<
        GenerationResult,
        GeneratorError,
    >)
        ensures
            r matches Ok(g) && g@ == mock_result(command_name@, mock_reply_for_name(command_name@)),
    {
        Ok(self.mock_generate_command(command_name, args))
    }
}

// ---------------------------------------------------------------------------
// Requests to the generation service and its replies.
// ---------------------------------------------------------------------------

/// The token budget of one generation.
pub const MAX_TOKENS: u32 = 1500;

/// The instruction sent ahead of the request's description.
pub const PROMPT_HEAD: &'static str = "CRITICAL: Your response must be EXACTLY a JSON object. No explanations, no code blocks, no other text.

Based on this request: \"";

/// The instruction sent after the request's description.
pub const PROMPT_TAIL: &'static str = "\"

Create a Deno/TypeScript command and suggest a short, descriptive command name.

RESPOND WITH EXACTLY THIS FORMAT (with your values):
{
  \"name\": \"suggested-command-name\",
  \"description\": \"Brief description of what this command does\",
  \"script\": \"console.log('working code here');\",
  \"permissions\": [
    {
      \"permission\": \"--allow-read\",
      \"reason\": \"Read files from the current directory\"
    }
  ]
}

RULES:
- Choose a clear, short command name (2-3 words max, kebab-case)
- Create real, working functionality - no placeholder code
- Use Deno APIs when needed
- Arguments available as Deno.args if the command should accept them
- Use MINIMAL permissions (empty [] preferred)
- Valid permission values: --allow-read, --allow-write, --allow-net, --allow-env, --allow-run
- For each permission, provide a clear reason why it's needed in user-friendly language
- Include try/catch for error handling
- CRITICAL: RESPOND ONLY WITH THE JSON OBJECT ABOVE - NO OTHER TEXT";

/// A list of texts as `{:?}` writes it.
pub uninterp spec fn debug_list_of(items: Seq<Seq<char>>) -> Seq<char>;

/// Relies on the `Debug` formatting of `Vec<String>`: the result depends on
/// the texts alone.
#[verifier::external_body]
fn debug_list(items: &Vec<String>) -> (r: String)
    ensures
        r@ == debug_list_of(texts_view(items@)),
{
    format!("{:?}", items)
}

/// What the instruction says is wanted: a command of the given name taking
/// the given arguments, or, without arguments, the user's own words.
pub open spec fn request_description(request: Seq<char>, args: Option<Seq<Seq<char>>>) -> Seq<char> {
    match args {
        Some(a) => "Create a command named '"@ + request + "' that handles arguments "@
            + debug_list_of(a),
        None => request,
    }
}

/// The full instruction for a request.
pub open spec fn unified_prompt(request: Seq<char>, args: Option<Seq<Seq<char>>>) -> Seq<char> {
    PROMPT_HEAD@ + request_description(request, args) + PROMPT_TAIL@
}

/// Builds the instruction that asks for one command as a bare JSON object:
/// for a named command with its arguments, or for a description in the
/// user's words.
pub fn build_unified_prompt(request: &str, args: Option<&Vec<String>>) -> (r: String)
    ensures
        r@ == unified_prompt(
            request@,
            match args {
                Some(a) => Some(texts_view(a@)),
                None => None,
            },
        ),
{
    let description = match args {
        Some(a) => {
            let listed = debug_list(a);
            let mut d = concat3("Create a command named '", request, "' that handles arguments ");
            d.append(listed.as_str());
            d
        },
        None => String::from_str(request),
    };
    concat3(PROMPT_HEAD, description.as_str(), PROMPT_TAIL)
}

/// What the instruction asks for when a command is rebuilt after feedback:
/// the command's name, its current script, the error output of its last
/// run if there was any, and the user's feedback if it is not empty.
pub open spec fn feedback_request(
    name: Seq<char>,
    script: Seq<char>,
    stderr: Option<Seq<char>>,
    feedback: Seq<char>,
) -> Seq<char> {
    let head = "Improve the existing command named '"@ + name + "'. Its current script is:\n"@
        + script + "\n"@;
    let with_errors = match stderr {
        Some(e) => head + "Its last run wrote this error output:\n"@ + e + "\n"@,
        None => head,
    };
    if feedback.len() == 0 {
        with_errors + "Fix the problems the error output shows."@
    } else {
        with_errors + "The user asks for this change: "@ + feedback
    }
}

/// Builds the instruction that asks for a corrected version of a command.
/// An empty `feedback` leaves the error output as the only guidance.
pub fn build_feedback_prompt(
    command_name: &str,
    previous_script: &str,
    stderr: Option<&str>,
    feedback: &str,
) -> (r: String)
    ensures
        r@ == unified_prompt(
            feedback_request(
                command_name@,
                previous_script@,
                match stderr {
                    Some(e) => Some(e@),
                    None => None,
                },
                feedback@,
            ),
            None,
        ),
{
    let mut d = concat3("Improve the existing command named '", command_name, "'. Its current script is:\n");
    d.append(previous_script);
    d.append("\n");
    if let Some(e) = stderr {
        d.append("Its last run wrote this error output:\n");
        d.append(e);
        d.append("\n");
    }
    if feedback.unicode_len() == 0 {
        d.append("Fix the problems the error output shows.");
    } else {
        d.append("The user asks for this change: ");
        d.append(feedback);
    }
    build_unified_prompt(d.as_str(), None)
}

/// The hexadecimal digit of `d`, in lower case.
pub open spec fn hex_digit(d: int) -> char {
    "0123456789abcdef"@[d]
}

/// How one character is written inside a JSON string literal: a quote and
/// a backslash take a backslash; backspace, tab, line feed, form feed and
/// carriage return take their short escapes; the other characters below
/// U+0020 become `\u00XX`; every other character stands as it is.
pub open spec fn json_escape(c: char) -> Seq<char> {
    if c == '"' {
        seq!['\\', '"']
    } else if c == '\\' {
        seq!['\\', '\\']
    } else if c == '\u{8}' {
        seq!['\\', 'b']
    } else if c == '\t' {
        seq!['\\', 't']
    } else if c == '\n' {
        seq!['\\', 'n']
    } else if c == '\u{c}' {
        seq!['\\', 'f']
    } else if c == '\r' {
        seq!['\\', 'r']
    } else if (c as u32) < 0x20 {
        seq!['\\', 'u', '0', '0', hex_digit(((c as u32) / 16) as int), hex_digit(((c as u32) % 16) as int)]
    } else {
        seq![c]
    }
}

/// The characters of a text, each escaped for a JSON string literal.
pub open spec fn json_escaped(s: Seq<char>) -> Seq<char>
    decreases s.len(),
{
    if s.len() == 0 {
        Seq::empty()
    } else {
        json_escaped(s.drop_last()) + json_escape(s.last())
    }
}

/// A text as a JSON string literal, quotes and escapes included.
pub open spec fn json_quoted(s: Seq<char>) -> Seq<char> {
    seq!['"'] + json_escaped(s) + seq!['"']
}

/// Relies on `serde_json::to_string` for a `str`: the text is written,
/// escaped, between quotes into a `Vec<u8>`, which cannot fail.
#[verifier::external_body]
fn quote_json(s: &str) -> (r: Option<String>)
    ensures
        r is Some,
        r matches Some(q) ==> q@ == json_quoted(s@),
{
    serde_json::to_string(s).ok()
}

/// The request body that carries `prompt` to the generation service.
pub open spec fn request_body_of(model: Seq<char>, prompt: Seq<char>) -> Seq<char> {
    "{\"model\":"@ + json_quoted(model) + ",\"max_tokens\":"@ + decimal_of(MAX_TOKENS as nat)
        + ",\"messages\":[{\"role\":\"user\",\"content\":"@ + json_quoted(prompt) + "}]}"@
}

/// Builds the JSON request body: the model, the token budget, and the
/// prompt as the one user message.
pub fn request_body(model: &str, prompt: &str) -> (r: String)
    ensures
        r@ == request_body_of(model@, prompt@),
{
    let quoted = quote_json(prompt).unwrap();
    let quoted_model = quote_json(model).unwrap();
    let mut body = concat3("{\"model\":", quoted_model.as_str(), ",\"max_tokens\":");
    body.append(decimal(MAX_TOKENS as usize).as_str());
    body.append(",\"messages\":[{\"role\":\"user\",\"content\":");
    body.append(quoted.as_str());
    body.append("}]}");
    body
}

/// The string found at a JSON pointer in a JSON document, as serde_json
/// reads the document and resolves the pointer; `None` when the document
/// does not parse or holds no string there.
pub uninterp spec fn json_string_at(document: Seq<char>, pointer: Seq<char>) -> Option<Seq<char>>;

/// The length of the array found at a JSON pointer in a JSON document, as
/// serde_json reads it; `None` when there is no array there.
pub uninterp spec fn json_array_len_at(document: Seq<char>, pointer: Seq<char>) -> Option<nat>;

/// Relies on `serde_json::from_str` into a `Value`, then `Value::pointer`
/// and `Value::as_str`: the string at `pointer`, if any.
#[verifier::external_body]
fn string_at(document: &str, pointer: &str) -> (r: Option<String>)
    ensures
        r matches Some(x) ==> json_string_at(document@, pointer@) == Some(x@),
        r is None ==> json_string_at(document@, pointer@) is None,
{
    let value: serde_json::Value = serde_json::from_str(document).ok()?;
    value.pointer(pointer)?.as_str().map(String::from)
}

/// Relies on `serde_json::from_str` into a `Value`, then `Value::pointer`
/// and `Value::as_array`: the length of the array at `pointer`, if any.
#[verifier::external_body]
fn array_len_at(document: &str, pointer: &str) -> (r: Option<usize>)
    ensures
        r matches Some(n) ==> json_array_len_at(document@, pointer@) == Some(n as nat),
        r is None ==> json_array_len_at(document@, pointer@) is None,
{
    let value: serde_json::Value = serde_json::from_str(document).ok()?;
    value.pointer(pointer)?.as_array().map(|a| a.len())
}

/// Where the generated text sits in the service's reply.
pub open spec fn reply_text_pointer() -> Seq<char> {
    "/content/0/text"@
}

/// The pointer to a field of the `i`-th permission of a payload.
pub open spec fn permission_pointer(i: nat, field: Seq<char>) -> Seq<char> {
    "/permissions/"@ + decimal_of(i) + "/"@ + field
}

/// The first `n` permissions of a payload, if each has a permission and a
/// reason.
pub open spec fn payload_permissions(text: Seq<char>, n: nat) -> Option<Seq<PermissionRequestView>>
    decreases n,
{
    if n == 0 {
        Some(Seq::empty())
    } else {
        match payload_permissions(text, (n - 1) as nat) {
            Some(ps) => match (
                json_string_at(text, permission_pointer((n - 1) as nat, "permission"@)),
                json_string_at(text, permission_pointer((n - 1) as nat, "reason"@)),
            ) {
                (Some(p), Some(r)) => Some(ps.push(request_view(p, r))),
                _ => None,
            },
            None => None,
        }
    }
}

/// The command a generated payload describes: name, description, script,
/// and permissions, each of the expected type.
pub open spec fn payload_command(text: Seq<char>) -> Option<GenerationResultView> {
    match (
        json_string_at(text, "/name"@),
        json_string_at(text, "/description"@),
        json_string_at(text, "/script"@),
        json_array_len_at(text, "/permissions"@),
    ) {
        (Some(n), Some(d), Some(sc), Some(len)) => match payload_permissions(text, len) {
            Some(ps) => Some(
                GenerationResultView {
                    command: GeneratedCommandView {
                        name: n,
                        description: d,
                        script_file: n + ".ts"@,
                        permissions: ps,
                    },
                    script_content: sc,
                },
            ),
            None => None,
        },
        _ => None,
    }
}

/// The command a reply of the service carries: the generated text is taken
/// out of the reply's envelope, then read as a payload.
pub open spec fn reply_command(raw: Seq<char>) -> Option<GenerationResultView> {
    match json_string_at(raw, reply_text_pointer()) {
        Some(text) => payload_command(text),
        None => None,
    }
}

proof fn lemma_permissions_fail_onward(text: Seq<char>, i: nat, n: nat)
    requires
        i <= n,
        payload_permissions(text, i) is None,
    ensures
        payload_permissions(text, n) is None,
    decreases n - i,
{
    if i < n {
        lemma_permissions_fail_onward(text, i, (n - 1) as nat);
    }
}

/// Reads a reply of the generation service. Anything short of a payload in
/// the expected shape is a `Schema` error that carries the reply as
/// received; no stand-in command is ever made up.
pub fn parse_generation_reply(raw: &str) -> (r: Result<GenerationResult, GeneratorError>)
    ensures
        reply_command(raw@) matches Some(g) ==> (r matches Ok(x) && x@ == g),
        reply_command(raw@) is None ==> (r matches Err(GeneratorError::Schema { raw: t }) && t@
            == raw@),
{
    match payload_of_reply(raw) {
        Some(g) => Ok(g),
        None => Err(GeneratorError::Schema { raw: String::from_str(raw) }),
    }
}

fn payload_of_reply(raw: &str) -> (r: Option<GenerationResult>)
    ensures
        reply_command(raw@) matches Some(g) ==> (r matches Some(x) && x@ == g),
        reply_command(raw@) is None ==> r is None,
{
    let text = string_at(raw, "/content/0/text")?;
    let name = string_at(text.as_str(), "/name")?;
    let description = string_at(text.as_str(), "/description")?;
    let script = string_at(text.as_str(), "/script")?;
    let n = array_len_at(text.as_str(), "/permissions")?;
    let mut permissions: Vec<PermissionRequest> = Vec::new();
    let mut i: usize = 0;
    while i < n
        invariant
            i <= n,
            payload_permissions(text@, i as nat) == Some(permissions_view(permissions@)),
            json_string_at(raw@, reply_text_pointer()) == Some(text@),
            json_string_at(text@, "/name"@) == Some(name@),
            json_string_at(text@, "/description"@) == Some(description@),
            json_string_at(text@, "/script"@) == Some(script@),
            json_array_len_at(text@, "/permissions"@) == Some(n as nat),
        decreases n - i,
    {
        let index = decimal(i);
        let mut at = concat3("/permissions/", index.as_str(), "/");
        at.append("permission");
        let mut because = concat3("/permissions/", index.as_str(), "/");
        because.append("reason");
        proof {
            assert(at@ =~= permission_pointer(i as nat, "permission"@));
            assert(because@ =~= permission_pointer(i as nat, "reason"@));
        }
        let p = string_at(text.as_str(), at.as_str());
        let q = string_at(text.as_str(), because.as_str());
        match (p, q) {
            (Some(p), Some(q)) => {
                let ghost before = permissions@;
                permissions.push(PermissionRequest { permission: p, reason: q });
                proof {
                    assert(permissions_view(permissions@) =~= permissions_view(before).push(
                        permissions@.last()@,
                    ));
                }
            },
            _ => {
                proof {
                    assert(payload_permissions(text@, (i + 1) as nat) is None);
                    lemma_permissions_fail_onward(text@, (i + 1) as nat, n as nat);
                }
                return None;
            },
        }
        i = i + 1;
    }
    Some(
        GenerationResult {
            command: GeneratedCommand {
                script_file: concat(name.as_str(), ".ts"),
                name,
                description,
                permissions,
            },
            script_content: script,
        },
    )
}

/// `result` filed under `name`: the command takes that name, and its script
/// file is named after it, whatever name the generator suggested.
pub open spec fn renamed(result: GenerationResultView, name: Seq<char>) -> GenerationResultView {
    GenerationResultView {
        command: GeneratedCommandView { name, script_file: name + ".ts"@, ..result.command },
        ..result
    }
}

/// Files a generated command under the name the user asked for.
pub fn with_requested_name(result: GenerationResult, name: &str) -> (r: GenerationResult)
    ensures
        r@ == renamed(result@, name@),
{
    let mut result = result;
    result.command.name = String::from_str(name);
    result.command.script_file = concat(name, ".ts");
    result
}

} // verus!
