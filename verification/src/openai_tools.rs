//! The tools that are offered to the model, chosen from the configuration.

use crate::protocol::AskForApproval;
use crate::protocol::SandboxPolicy;
use vstd::prelude::*;
use vstd::string::StringExecFns;

verus! {

/// The name under which every variant of the shell tool is offered.
pub const SHELL_TOOL_NAME: &'static str = "shell";

/// What the shell function says of itself where nothing confines it.
pub const FULL_ACCESS_DESCRIPTION: &'static str = "Runs a shell command and returns its output.";

/// What the shell function says of itself under a read-only sandbox.
pub const READ_ONLY_DESCRIPTION: &'static str =
    "\nThe shell tool is used to execute shell commands.\n- When invoking the shell tool, your call will be running in a landlock sandbox, and some shell commands (including apply_patch) will require escalated permissions:\n  - Types of actions that require escalated privileges:\n    - Reading files outside the current directory\n    - Writing files\n    - Applying patches\n  - Examples of commands that require escalated privileges:\n    - apply_patch\n    - git commit\n    - npm install or pnpm install\n    - cargo build\n    - cargo test\n- When invoking a command that will require escalated privileges:\n  - Provide the with_escalated_permissions parameter with the boolean value true\n  - Include a short, 1 sentence explanation for why we need to run with_escalated_permissions in the justification parameter";

/// What the shell function says of itself under a sandbox that lets it write
/// to the workspace, up to the place for the note on the network.
pub const WORKSPACE_WRITE_DESCRIPTION_HEAD: &'static str =
    "\nThe shell tool is used to execute shell commands.\n- When invoking the shell tool, your call will be running in a landlock sandbox, and some shell commands will require escalated privileges:\n  - Types of actions that require escalated privileges:\n    - Reading files outside the current directory\n    - Writing files outside the current directory, and protected folders like .git or .env";

/// The note for a sandbox that has no access to the network.
pub const NO_NETWORK_NOTE: &'static str = "\n  - Commands that require network access\n";

/// What follows the place for the note on the network.
pub const WORKSPACE_WRITE_DESCRIPTION_TAIL: &'static str =
    "\n  - Examples of commands that require escalated privileges:\n    - git commit\n    - npm install or pnpm install\n    - cargo build\n    - cargo test\n- When invoking a command that will require escalated privileges:\n  - Provide the with_escalated_permissions parameter with the boolean value true\n  - Include a short, 1 sentence explanation for why we need to run with_escalated_permissions in the justification parameter.";

/// What the shell function says of its flag for leaving the sandbox.
pub const ESCALATED_PERMISSIONS_DESCRIPTION: &'static str =
    "Whether to request escalated permissions. Set to true if command needs to be run without sandbox restrictions";

/// What the shell function says of the reason for leaving the sandbox.
pub const JUSTIFICATION_DESCRIPTION: &'static str =
    "Only set if ask_for_escalated_permissions is true. 1-sentence explanation of why we want to run this command.";

/// A tool in the form that the Responses API takes.
#[derive(Debug, PartialEq)]
pub struct ResponsesApiTool {
    pub name: String,
    pub description: String,
    /// Whether the model has to keep to the schema exactly.
    pub strict: bool,
    pub parameters: JsonSchema,
}

/// A tool that can be offered to the model.
#[derive(Debug, PartialEq)]
pub enum OpenAiTool {
    /// A function described by a schema.
    Function(ResponsesApiTool),
    /// The shell that the model brings along.
    LocalShell {  },
}

/// Which shell tool is offered.
#[derive(Debug, Clone)]
pub enum ConfigShellToolType {
    /// The plain shell function.
    DefaultShell,
    /// The shell function that lets the model ask to leave the sandbox.
    ShellWithRequest { sandbox_policy: SandboxPolicy },
    /// The shell that the model brings along.
    LocalShell,
}

/// What decides the set of tools.
#[derive(Debug, Clone)]
pub struct ToolsConfig {
    pub shell_type: ConfigShellToolType,
    pub plan_tool: bool,
}

/// What is known of a family of models, as far as the tools depend on it.
#[derive(Debug, Clone, Copy, PartialEq, Eq, Structural)]
pub struct ModelFamily {
    /// Whether models of the family bring their own shell tool.
    pub uses_local_shell_tool: bool,
}

impl ToolsConfig {
    /// The shell tool that a configuration calls for: the one that takes
    /// requests where approval is asked on request, else the model's own
    /// where it has one, else the plain function.
    pub open spec fn shell_type_for(
        model_family: ModelFamily,
        approval_policy: AskForApproval,
        sandbox_policy: SandboxPolicy,
    ) -> ConfigShellToolType {
        if approval_policy == AskForApproval::OnRequest {
            ConfigShellToolType::ShellWithRequest { sandbox_policy }
        } else if model_family.uses_local_shell_tool {
            ConfigShellToolType::LocalShell
        } else {
            ConfigShellToolType::DefaultShell
        }
    }

    /// The configuration of the tools for a model and the two policies.
    pub fn new(
        model_family: &ModelFamily,
        approval_policy: AskForApproval,
        sandbox_policy: SandboxPolicy,
        include_plan_tool: bool,
    ) -> (config: ToolsConfig)
        ensures
            config.shell_type == Self::shell_type_for(
                *model_family,
                approval_policy,
                sandbox_policy,
            ),
            config.plan_tool == include_plan_tool,
    {
        let mut shell_type = if model_family.uses_local_shell_tool {
            ConfigShellToolType::LocalShell
        } else {
            ConfigShellToolType::DefaultShell
        };
        if let AskForApproval::OnRequest = approval_policy {
            shell_type = ConfigShellToolType::ShellWithRequest { sandbox_policy };
        }
        ToolsConfig { shell_type, plan_tool: include_plan_tool }
    }
}

/// The part of JSON Schema that tool definitions need. The properties of an
/// object are kept in the order of their names, each name once.
#[derive(Debug, PartialEq)]
pub enum JsonSchema {
    Boolean { description: Option<String> },
    String { description: Option<String> },
    Number { description: Option<String> },
    Array { items: Box<JsonSchema>, description: Option<String> },
    Object {
        properties: Vec<(String, JsonSchema)>,
        required: Option<Vec<String>>,
        additional_properties: Option<bool>,
    },
}

/// The text of an optional string.
pub open spec fn opt_text(s: Option<String>) -> Option<Seq<char>> {
    match s {
        Some(text) => Some(text@),
        None => None,
    }
}

/// Whether `schema` is that of a string with the given description.
pub open spec fn is_string_schema(schema: JsonSchema, description: Option<Seq<char>>) -> bool {
    schema matches JsonSchema::String { description: d } && opt_text(d) == description
}

/// Whether `schema` is that of a number with the given description.
pub open spec fn is_number_schema(schema: JsonSchema, description: Option<Seq<char>>) -> bool {
    schema matches JsonSchema::Number { description: d } && opt_text(d) == description
}

/// Whether `schema` is that of a boolean with the given description.
pub open spec fn is_boolean_schema(schema: JsonSchema, description: Option<Seq<char>>) -> bool {
    schema matches JsonSchema::Boolean { description: d } && opt_text(d) == description
}

/// Whether `schema` is that of an array of plain strings with the given
/// description.
pub open spec fn is_string_array_schema(schema: JsonSchema, description: Option<Seq<char>>)
    -> bool {
    schema matches JsonSchema::Array { items, description: d } && is_string_schema(*items, None)
        && opt_text(d) == description
}

/// Whether `required` names exactly the command.
pub open spec fn requires_command_only(required: Option<Vec<String>>) -> bool {
    required matches Some(names) && names@.len() == 1 && names@[0]@ == "command"@
}

/// Whether `tool` is the plain shell function: a command, a working
/// directory and a timeout, none of them described, the command required,
/// nothing else allowed.
pub open spec fn is_shell_tool(tool: OpenAiTool) -> bool {
    tool matches OpenAiTool::Function(f) && {
        &&& f.name@ == SHELL_TOOL_NAME@
        &&& f.description@ == "Runs a shell command and returns its output"@
        &&& !f.strict
        &&& f.parameters matches JsonSchema::Object {
            properties,
            required,
            additional_properties,
        } && {
            &&& properties@.len() == 3
            &&& properties@[0].0@ == "command"@
            &&& is_string_array_schema(properties@[0].1, None)
            &&& properties@[1].0@ == "timeout"@
            &&& is_number_schema(properties@[1].1, None)
            &&& properties@[2].0@ == "workdir"@
            &&& is_string_schema(properties@[2].1, None)
            &&& requires_command_only(required)
            &&& additional_properties == Some(false)
        }
    }
}

/// The plain shell function.
pub fn create_shell_tool() -> (tool: OpenAiTool)
    ensures
        is_shell_tool(tool),
{
    let mut properties: Vec<(String, JsonSchema)> = Vec::new();
    properties.push(
        (
            "command".to_owned(),
            JsonSchema::Array {
                items: Box::new(JsonSchema::String { description: None }),
                description: None,
            },
        ),
    );
    properties.push(("timeout".to_owned(), JsonSchema::Number { description: None }));
    properties.push(("workdir".to_owned(), JsonSchema::String { description: None }));
    let mut required: Vec<String> = Vec::new();
    required.push("command".to_owned());
    OpenAiTool::Function(
        ResponsesApiTool {
            name: SHELL_TOOL_NAME.to_owned(),
            description: "Runs a shell command and returns its output".to_owned(),
            strict: false,
            parameters: JsonSchema::Object {
                properties,
                required: Some(required),
                additional_properties: Some(false),
            },
        },
    )
}

/// What the shell function says of itself under a policy.
pub open spec fn shell_description(sandbox_policy: SandboxPolicy) -> Seq<char> {
    match sandbox_policy {
        SandboxPolicy::WorkspaceWrite { network_access, .. } => WORKSPACE_WRITE_DESCRIPTION_HEAD@
            + (if !network_access {
            NO_NETWORK_NOTE@
        } else {
            Seq::<char>::empty()
        }) + WORKSPACE_WRITE_DESCRIPTION_TAIL@,
        SandboxPolicy::DangerFullAccess => FULL_ACCESS_DESCRIPTION@,
        SandboxPolicy::ReadOnly => READ_ONLY_DESCRIPTION@,
    }
}

/// Whether `properties` are those of the shell function that takes requests:
/// the command, the timeout and the working directory, each described, and,
/// where the policy lets the command write to the workspace, the flag for
/// leaving the sandbox and the reason for it; in the order of their names.
pub open spec fn is_sandbox_shell_properties(
    properties: Seq<(String, JsonSchema)>,
    sandbox_policy: SandboxPolicy,
) -> bool {
    if sandbox_policy is WorkspaceWrite {
        &&& properties.len() == 5
        &&& properties[0].0@ == "command"@
        &&& is_string_array_schema(properties[0].1, Some("The command to execute"@))
        &&& properties[1].0@ == "justification"@
        &&& is_string_schema(properties[1].1, Some(JUSTIFICATION_DESCRIPTION@))
        &&& properties[2].0@ == "timeout"@
        &&& is_number_schema(
            properties[2].1,
            Some("The timeout for the command in milliseconds"@),
        )
        &&& properties[3].0@ == "with_escalated_permissions"@
        &&& is_boolean_schema(properties[3].1, Some(ESCALATED_PERMISSIONS_DESCRIPTION@))
        &&& properties[4].0@ == "workdir"@
        &&& is_string_schema(
            properties[4].1,
            Some("The working directory to execute the command in"@),
        )
    } else {
        &&& properties.len() == 3
        &&& properties[0].0@ == "command"@
        &&& is_string_array_schema(properties[0].1, Some("The command to execute"@))
        &&& properties[1].0@ == "timeout"@
        &&& is_number_schema(
            properties[1].1,
            Some("The timeout for the command in milliseconds"@),
        )
        &&& properties[2].0@ == "workdir"@
        &&& is_string_schema(
            properties[2].1,
            Some("The working directory to execute the command in"@),
        )
    }
}

/// Whether `tool` is the shell function that takes requests to leave the
/// sandbox, as it is offered under `sandbox_policy`.
pub open spec fn is_sandbox_shell_tool(tool: OpenAiTool, sandbox_policy: SandboxPolicy) -> bool {
    tool matches OpenAiTool::Function(f) && {
        &&& f.name@ == SHELL_TOOL_NAME@
        &&& f.description@ == shell_description(sandbox_policy)
        &&& !f.strict
        &&& f.parameters matches JsonSchema::Object {
            properties,
            required,
            additional_properties,
        } && {
            &&& is_sandbox_shell_properties(properties@, sandbox_policy)
            &&& requires_command_only(required)
            &&& additional_properties == Some(false)
        }
    }
}

/// The shell function that takes requests to leave the sandbox.
pub fn create_shell_tool_for_sandbox(sandbox_policy: &SandboxPolicy) -> (tool: OpenAiTool)
    ensures
        is_sandbox_shell_tool(tool, *sandbox_policy),
{
    let workspace_write = match sandbox_policy {
        SandboxPolicy::WorkspaceWrite { .. } => true,
        _ => false,
    };
    let mut properties: Vec<(String, JsonSchema)> = Vec::new();
    properties.push(
        (
            "command".to_owned(),
            JsonSchema::Array {
                items: Box::new(JsonSchema::String { description: None }),
                description: Some("The command to execute".to_owned()),
            },
        ),
    );
    if workspace_write {
        properties.push(
            (
                "justification".to_owned(),
                JsonSchema::String { description: Some(JUSTIFICATION_DESCRIPTION.to_owned()) },
            ),
        );
    }
    properties.push(
        (
            "timeout".to_owned(),
            JsonSchema::Number {
                description: Some("The timeout for the command in milliseconds".to_owned()),
            },
        ),
    );
    if workspace_write {
        properties.push(
            (
                "with_escalated_permissions".to_owned(),
                JsonSchema::Boolean {
                    description: Some(ESCALATED_PERMISSIONS_DESCRIPTION.to_owned()),
                },
            ),
        );
    }
    properties.push(
        (
            "workdir".to_owned(),
            JsonSchema::String {
                description: Some("The working directory to execute the command in".to_owned()),
            },
        ),
    );
    let description = match sandbox_policy {
        SandboxPolicy::WorkspaceWrite { network_access, .. } => {
            let mut text = WORKSPACE_WRITE_DESCRIPTION_HEAD.to_owned();
            if !*network_access {
                text.append(NO_NETWORK_NOTE);
            }
            text.append(WORKSPACE_WRITE_DESCRIPTION_TAIL);
            text
        },
        SandboxPolicy::DangerFullAccess => FULL_ACCESS_DESCRIPTION.to_owned(),
        SandboxPolicy::ReadOnly => READ_ONLY_DESCRIPTION.to_owned(),
    };
    let mut required: Vec<String> = Vec::new();
    required.push("command".to_owned());
    OpenAiTool::Function(
        ResponsesApiTool {
            name: SHELL_TOOL_NAME.to_owned(),
            description,
            strict: false,
            parameters: JsonSchema::Object {
                properties,
                required: Some(required),
                additional_properties: Some(false),
            },
        },
    )
}

/// The tool that stands for a tool of an outside server: it goes by its
/// qualified name, says what the server says of it, or nothing, and takes the
/// server's schema; the model need not keep to the schema exactly.
pub fn mcp_tool_to_openai_tool(
    fully_qualified_name: String,
    description: Option<String>,
    input_schema: JsonSchema,
) -> (tool: ResponsesApiTool)
    ensures
        tool.name == fully_qualified_name,
        tool.description@ == match description {
            Some(text) => text@,
            None => Seq::<char>::empty(),
        },
        !tool.strict,
        tool.parameters == input_schema,
{
    let description = match description {
        Some(text) => text,
        None => String::new(),
    };
    ResponsesApiTool {
        name: fully_qualified_name,
        description,
        strict: false,
        parameters: input_schema,
    }
}

/// The elements of `v` in reverse order.
fn reversed<T>(v: Vec<T>) -> (r: Vec<T>)
    ensures
        r@ == v@.reverse(),
{
    let mut v = v;
    let ghost all = v@;
    let mut r: Vec<T> = Vec::new();
    while v.len() > 0
        invariant
            v@.len() <= all.len(),
            v@ == all.take(v@.len() as int),
            r@ == all.skip(v@.len() as int).reverse(),
        decreases v@.len(),
    {
        let last = v.pop();
        match last {
            Some(item) => {
                r.push(item);
            },
            None => {},
        }
    }
    r
}

/// The tools made of those outside tools that could be converted, in order.
pub open spec fn converted_tools(mcp_tools: Seq<Option<ResponsesApiTool>>) -> Seq<OpenAiTool>
    decreases mcp_tools.len(),
{
    if mcp_tools.len() == 0 {
        Seq::empty()
    } else {
        match mcp_tools.last() {
            Some(tool) => converted_tools(mcp_tools.drop_last()).push(OpenAiTool::Function(tool)),
            None => converted_tools(mcp_tools.drop_last()),
        }
    }
}

/// How many tools come before those of outside servers: the shell tool, and
/// the plan tool where it is asked for.
pub open spec fn builtin_tool_count(config: ToolsConfig) -> int {
    if config.plan_tool {
        2
    } else {
        1
    }
}

/// The tools to offer: the shell tool that the configuration names, the plan
/// tool where the configuration asks for it, and the outside tools that
/// could be converted, in the order given.
pub fn get_openai_tools(
    config: &ToolsConfig,
    plan_tool: OpenAiTool,
    mcp_tools: Option<Vec<Option<ResponsesApiTool>>>,
) -> (tools: Vec<OpenAiTool>)
    ensures
        tools@.len() >= builtin_tool_count(*config),
        match config.shell_type {
            ConfigShellToolType::DefaultShell => is_shell_tool(tools@[0]),
            ConfigShellToolType::ShellWithRequest { sandbox_policy } => is_sandbox_shell_tool(
                tools@[0],
                sandbox_policy,
            ),
            ConfigShellToolType::LocalShell => tools@[0] == (OpenAiTool::LocalShell {  }),
        },
        config.plan_tool ==> tools@[1] == plan_tool,
        tools@.skip(builtin_tool_count(*config)) == match mcp_tools {
            Some(list) => converted_tools(list@),
            None => Seq::<OpenAiTool>::empty(),
        },
{
    let mut tools: Vec<OpenAiTool> = Vec::new();
    match &config.shell_type {
        ConfigShellToolType::DefaultShell => {
            tools.push(create_shell_tool());
        },
        ConfigShellToolType::ShellWithRequest { sandbox_policy } => {
            tools.push(create_shell_tool_for_sandbox(sandbox_policy));
        },
        ConfigShellToolType::LocalShell => {
            tools.push(OpenAiTool::LocalShell {  });
        },
    }
    if config.plan_tool {
        tools.push(plan_tool);
    }
    let ghost builtin = tools@;
    if let Some(list) = mcp_tools {
        let ghost all = list@;
        let mut pending = reversed(list);
        while pending.len() > 0
            invariant
                pending@.len() <= all.len(),
                pending@ == all.skip(all.len() - pending@.len()).reverse(),
                tools@ == builtin + converted_tools(all.take(all.len() - pending@.len())),
            decreases pending@.len(),
        {
            let ghost done = all.len() - pending@.len();
            let next = pending.pop();
            proof {
                assert(all.take(done + 1).drop_last() =~= all.take(done));
            }
            match next {
                Some(Some(tool)) => {
                    tools.push(OpenAiTool::Function(tool));
                },
                _ => {},
            }
        }
        proof {
            assert(all.take(all.len() as int) =~= all);
        }
    }
    tools
}

/// The function tools among `tools`, in order.
pub open spec fn functions_of(tools: Seq<OpenAiTool>) -> Seq<ResponsesApiTool>
    decreases tools.len(),
{
    if tools.len() == 0 {
        Seq::empty()
    } else {
        match tools.last() {
            OpenAiTool::Function(f) => functions_of(tools.drop_last()).push(f),
            OpenAiTool::LocalShell {  } => functions_of(tools.drop_last()),
        }
    }
}

/// Picks the function tools out of `tools`, in order: the tools that the Chat
/// Completions API can be offered.
pub fn function_tools(tools: Vec<OpenAiTool>) -> (functions: Vec<ResponsesApiTool>)
    ensures
        functions@ == functions_of(tools@),
{
    let ghost all = tools@;
    let mut pending = reversed(tools);
    let mut functions: Vec<ResponsesApiTool> = Vec::new();
    while pending.len() > 0
        invariant
            pending@.len() <= all.len(),
            pending@ == all.skip(all.len() - pending@.len()).reverse(),
            functions@ == functions_of(all.take(all.len() - pending@.len())),
        decreases pending@.len(),
    {
        let ghost done = all.len() - pending@.len();
        let next = pending.pop();
        proof {
            assert(all.take(done + 1).drop_last() =~= all.take(done));
        }
        match next {
            Some(OpenAiTool::Function(f)) => {
                functions.push(f);
            },
            _ => {},
        }
    }
    proof {
        assert(all.take(all.len() as int) =~= all);
    }
    functions
}

} // verus!
