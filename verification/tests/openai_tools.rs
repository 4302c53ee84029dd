use codex_lite::openai_tools::create_shell_tool;
use codex_lite::openai_tools::create_shell_tool_for_sandbox;
use codex_lite::openai_tools::function_tools;
use codex_lite::openai_tools::get_openai_tools;
use codex_lite::openai_tools::mcp_tool_to_openai_tool;
use codex_lite::openai_tools::ConfigShellToolType;
use codex_lite::openai_tools::JsonSchema;
use codex_lite::openai_tools::ModelFamily;
use codex_lite::openai_tools::OpenAiTool;
use codex_lite::openai_tools::ResponsesApiTool;
use codex_lite::openai_tools::ToolsConfig;
use codex_lite::protocol::AskForApproval;
use codex_lite::protocol::SandboxPolicy;

fn plan_tool() -> OpenAiTool {
    OpenAiTool::Function(ResponsesApiTool {
        name: "update_plan".to_string(),
        description: "Updates the task plan.".to_string(),
        strict: false,
        parameters: JsonSchema::Object {
            properties: vec![(
                "plan".to_string(),
                JsonSchema::Array {
                    items: Box::new(JsonSchema::String { description: None }),
                    description: None,
                },
            )],
            required: Some(vec!["plan".to_string()]),
            additional_properties: Some(false),
        },
    })
}

fn assert_eq_tool_names(tools: &[OpenAiTool], expected_names: &[&str]) {
    let tool_names = tools
        .iter()
        .map(|tool| match tool {
            OpenAiTool::Function(ResponsesApiTool { name, .. }) => name,
            OpenAiTool::LocalShell {} => "local_shell",
        })
        .collect::<Vec<_>>();

    assert_eq!(
        tool_names.len(),
        expected_names.len(),
        "tool_name mismatch, {tool_names:?}, {expected_names:?}",
    );
    for (name, expected_name) in tool_names.iter().zip(expected_names.iter()) {
        assert_eq!(
            name, expected_name,
            "tool_name mismatch, {name:?}, {expected_name:?}"
        );
    }
}

#[test]
fn test_get_openai_tools() {
    // The family of codex-mini-latest brings its own shell tool.
    let model_family = ModelFamily {
        uses_local_shell_tool: true,
    };
    let config = ToolsConfig::new(
        &model_family,
        AskForApproval::Never,
        SandboxPolicy::ReadOnly,
        true,
    );
    let tools = get_openai_tools(&config, plan_tool(), Some(Vec::new()));

    assert_eq_tool_names(&tools, &["local_shell", "update_plan"]);
}

#[test]
fn test_get_openai_tools_default_shell() {
    // The family of o3 does not.
    let model_family = ModelFamily {
        uses_local_shell_tool: false,
    };
    let config = ToolsConfig::new(
        &model_family,
        AskForApproval::Never,
        SandboxPolicy::ReadOnly,
        true,
    );
    let tools = get_openai_tools(&config, plan_tool(), Some(Vec::new()));

    assert_eq_tool_names(&tools, &["shell", "update_plan"]);
}

fn cool_schema() -> JsonSchema {
    JsonSchema::Object {
        properties: vec![
            (
                "number_argument".to_string(),
                JsonSchema::Number { description: None },
            ),
            (
                "object_argument".to_string(),
                JsonSchema::Object {
                    properties: vec![
                        (
                            "number_property".to_string(),
                            JsonSchema::Number { description: None },
                        ),
                        (
                            "string_property".to_string(),
                            JsonSchema::String { description: None },
                        ),
                    ],
                    required: Some(vec![
                        "string_property".to_string(),
                        "number_property".to_string(),
                    ]),
                    additional_properties: Some(false),
                },
            ),
            (
                "string_argument".to_string(),
                JsonSchema::String { description: None },
            ),
        ],
        required: None,
        additional_properties: None,
    }
}

#[test]
fn test_get_openai_tools_mcp_tools() {
    let model_family = ModelFamily {
        uses_local_shell_tool: false,
    };
    let config = ToolsConfig::new(
        &model_family,
        AskForApproval::Never,
        SandboxPolicy::ReadOnly,
        false,
    );
    let tools = get_openai_tools(
        &config,
        plan_tool(),
        Some(vec![Some(mcp_tool_to_openai_tool(
            "test_server/do_something_cool".to_string(),
            Some("Do something cool".to_string()),
            cool_schema(),
        ))]),
    );

    assert_eq_tool_names(&tools, &["shell", "test_server/do_something_cool"]);

    assert_eq!(
        tools[1],
        OpenAiTool::Function(ResponsesApiTool {
            name: "test_server/do_something_cool".to_string(),
            parameters: cool_schema(),
            description: "Do something cool".to_string(),
            strict: false,
        })
    );
}

#[test]
fn approval_on_request_selects_the_shell_that_takes_requests() {
    for uses_local_shell_tool in [false, true] {
        let config = ToolsConfig::new(
            &ModelFamily {
                uses_local_shell_tool,
            },
            AskForApproval::OnRequest,
            SandboxPolicy::ReadOnly,
            false,
        );
        assert!(matches!(
            config.shell_type,
            ConfigShellToolType::ShellWithRequest {
                sandbox_policy: SandboxPolicy::ReadOnly
            }
        ));
        assert!(!config.plan_tool);
    }
    for approval in [
        AskForApproval::UnlessTrusted,
        AskForApproval::OnFailure,
        AskForApproval::Never,
    ] {
        let config = ToolsConfig::new(
            &ModelFamily {
                uses_local_shell_tool: true,
            },
            approval,
            SandboxPolicy::DangerFullAccess,
            true,
        );
        assert!(matches!(config.shell_type, ConfigShellToolType::LocalShell));
        assert!(config.plan_tool);
        let config = ToolsConfig::new(
            &ModelFamily {
                uses_local_shell_tool: false,
            },
            approval,
            SandboxPolicy::DangerFullAccess,
            true,
        );
        assert!(matches!(config.shell_type, ConfigShellToolType::DefaultShell));
    }
}

fn property_names(tool: &OpenAiTool) -> Vec<String> {
    match tool {
        OpenAiTool::Function(ResponsesApiTool {
            parameters: JsonSchema::Object { properties, .. },
            ..
        }) => properties.iter().map(|(name, _)| name.clone()).collect(),
        other => panic!("not a function with an object schema: {other:?}"),
    }
}

fn description(tool: &OpenAiTool) -> String {
    match tool {
        OpenAiTool::Function(f) => f.description.clone(),
        other => panic!("not a function: {other:?}"),
    }
}

#[test]
fn plain_shell_tool() {
    let tool = create_shell_tool();
    assert_eq!(
        tool,
        OpenAiTool::Function(ResponsesApiTool {
            name: "shell".to_string(),
            description: "Runs a shell command and returns its output".to_string(),
            strict: false,
            parameters: JsonSchema::Object {
                properties: vec![
                    (
                        "command".to_string(),
                        JsonSchema::Array {
                            items: Box::new(JsonSchema::String { description: None }),
                            description: None,
                        },
                    ),
                    (
                        "timeout".to_string(),
                        JsonSchema::Number { description: None },
                    ),
                    (
                        "workdir".to_string(),
                        JsonSchema::String { description: None },
                    ),
                ],
                required: Some(vec!["command".to_string()]),
                additional_properties: Some(false),
            },
        })
    );
}

#[test]
fn shell_tool_for_each_policy() {
    let full = create_shell_tool_for_sandbox(&SandboxPolicy::DangerFullAccess);
    assert_eq!(description(&full), "Runs a shell command and returns its output.");
    assert_eq!(property_names(&full), vec!["command", "timeout", "workdir"]);

    let read_only = create_shell_tool_for_sandbox(&SandboxPolicy::ReadOnly);
    let text = description(&read_only);
    assert!(text.starts_with("\nThe shell tool is used to execute shell commands.\n"));
    assert!(text.contains("    - Applying patches\n"));
    assert!(text.ends_with("in the justification parameter"));
    assert_eq!(property_names(&read_only), vec!["command", "timeout", "workdir"]);

    let offline = create_shell_tool_for_sandbox(&SandboxPolicy::WorkspaceWrite {
        writable_roots: Vec::new(),
        network_access: false,
    });
    let text = description(&offline);
    assert!(text.contains(
        "protected folders like .git or .env\n  - Commands that require network access\n\n  - Examples"
    ));
    assert!(text.ends_with("in the justification parameter."));
    assert_eq!(
        property_names(&offline),
        vec![
            "command",
            "justification",
            "timeout",
            "with_escalated_permissions",
            "workdir"
        ]
    );

    let online = create_shell_tool_for_sandbox(&SandboxPolicy::WorkspaceWrite {
        writable_roots: vec!["/tmp".to_string()],
        network_access: true,
    });
    let text = description(&online);
    assert!(!text.contains("network access"));
    assert!(text.contains("protected folders like .git or .env\n  - Examples"));
    match &online {
        OpenAiTool::Function(ResponsesApiTool {
            name,
            strict,
            parameters:
                JsonSchema::Object {
                    properties,
                    required,
                    additional_properties,
                },
            ..
        }) => {
            assert_eq!(name, "shell");
            assert!(!*strict);
            assert_eq!(required, &Some(vec!["command".to_string()]));
            assert_eq!(additional_properties, &Some(false));
            assert_eq!(
                properties[0].1,
                JsonSchema::Array {
                    items: Box::new(JsonSchema::String { description: None }),
                    description: Some("The command to execute".to_string()),
                }
            );
            assert_eq!(
                properties[3].1,
                JsonSchema::Boolean {
                    description: Some("Whether to request escalated permissions. Set to true if command needs to be run without sandbox restrictions".to_string()),
                }
            );
        }
        other => panic!("unexpected {other:?}"),
    }
}

#[test]
fn outside_tools_keep_their_order_and_failed_ones_are_left_out() {
    let config = ToolsConfig {
        shell_type: ConfigShellToolType::ShellWithRequest {
            sandbox_policy: SandboxPolicy::ReadOnly,
        },
        plan_tool: true,
    };
    let tool = |name: &str| {
        mcp_tool_to_openai_tool(
            name.to_string(),
            None,
            JsonSchema::Boolean { description: None },
        )
    };
    let tools = get_openai_tools(
        &config,
        plan_tool(),
        Some(vec![Some(tool("a/x")), None, Some(tool("b/y")), Some(tool("c/z")), None]),
    );
    assert_eq_tool_names(&tools, &["shell", "update_plan", "a/x", "b/y", "c/z"]);
    assert_eq!(tools[1], plan_tool());
    match &tools[2] {
        OpenAiTool::Function(f) => assert_eq!(f.description, ""),
        other => panic!("unexpected {other:?}"),
    }

    let tools = get_openai_tools(&config, plan_tool(), None);
    assert_eq_tool_names(&tools, &["shell", "update_plan"]);
}

#[test]
fn only_function_tools_go_to_chat_completions() {
    let functions = function_tools(vec![
        OpenAiTool::LocalShell {},
        create_shell_tool(),
        OpenAiTool::LocalShell {},
        plan_tool(),
    ]);
    let names: Vec<&str> = functions.iter().map(|f| f.name.as_str()).collect();
    assert_eq!(names, vec!["shell", "update_plan"]);
    assert!(function_tools(vec![OpenAiTool::LocalShell {}]).is_empty());
    assert!(function_tools(Vec::new()).is_empty());
}
