use webview_bridge::scripts::{
    bridge_presence_script, core_script, event_initialization_script, hotkey_zoom_script,
    initialization_script, invoke_script, ipc_script, metadata_script, pattern_script,
    prepare_scripts, InitializationScript, PatternObject, ScriptContext, ScriptTemplates,
};

fn templates() -> ScriptTemplates {
    ScriptTemplates {
        ipc: "ipc(__TEMPLATE_isolation_origin__)".to_string(),
        pattern: "pattern(__TEMPLATE_pattern__)".to_string(),
        core: "core(__TEMPLATE_os_name__, __TEMPLATE_protocol_scheme__, __TEMPLATE_invoke_key__)"
            .to_string(),
        init: "(function () {\n__RAW_pattern_script__\n__RAW_ipc_script__\n__RAW_core_script__\n__RAW_event_initialization_script__\n__RAW_freeze_prototype__\n})()"
            .to_string(),
        hotkey_zoom: "zoom(__TEMPLATE_os_name__) // __TEMPLATE_os_name__".to_string(),
        invoke: "__RAW_process_ipc_message_fn__; invoke(__TEMPLATE_os_name__, __TEMPLATE_fetch_channel_data_command__, __TEMPLATE_invoke_key__)"
            .to_string(),
        process_ipc_message_fn: "function process(m) { return m }".to_string(),
        freeze_prototype: "Object.freeze(Object.prototype)".to_string(),
    }
}

fn context() -> ScriptContext {
    ScriptContext::new("main".to_string(), "greet".to_string(), "linux".to_string())
}

fn expected_event(function_name: &str, listeners: &str) -> String {
    format!(
        "Object.defineProperty(window, '{function_name}', {{
      value: function (eventData, ids) {{
        const listeners = (window['{listeners}'] && window['{listeners}'][eventData.event]) || []
        for (const id of ids) {{
          const listener = listeners[id]
          if (listener) {{
            eventData.id = id
            window.__TAURI_INTERNALS__.runCallback(listener.handlerId, eventData)
          }}
        }}
      }}
    }});
  "
    )
}

fn expected_metadata(current_window_label: &str, current_webview_label: &str) -> String {
    format!(
        r#"
          Object.defineProperty(window.__TAURI_INTERNALS__, 'metadata', {{
            value: {{
              currentWindow: {{ label: {current_window_label} }},
              currentWebview: {{ label: {current_webview_label} }}
            }}
          }})
        "#
    )
}

fn expected_presence() -> String {
    r"
        Object.defineProperty(window, 'isTauri', {
          value: true,
        });

        if (!window.__TAURI_INTERNALS__) {
          Object.defineProperty(window, '__TAURI_INTERNALS__', {
            value: {
              plugins: {}
            }
          })
        }
      "
    .to_owned()
}

fn expected_core() -> String {
    "core(JSON.parse('\"linux\"'), JSON.parse('\"http\"'), JSON.parse('\"gpui\"'))".to_string()
}

fn expected_init() -> String {
    format!(
        "(function () {{\n{}\n{}\n{}\n{}\n{}\n}})()",
        "pattern(JSON.parse('{\"pattern\":\"brownfield\"}'))",
        "ipc(JSON.parse('\"\"'))",
        expected_core(),
        expected_event(
            "__internal_unstable_listeners_function_id__",
            "__internal_unstable_listeners_object_id__"
        ),
        ""
    )
}

#[test]
fn default_script_is_empty_and_for_the_main_frame() {
    let script = InitializationScript::default();
    assert_eq!(script.script, "");
    assert!(script.for_main_frame_only);
}

#[test]
fn main_frame_script_keeps_the_source() {
    let script = InitializationScript::main_frame_script("console.log(1)".to_string());
    assert_eq!(script.script, "console.log(1)");
    assert!(script.for_main_frame_only);
    let copy = script.clone();
    assert_eq!(copy.script, "console.log(1)");
    assert!(copy.for_main_frame_only);
}

#[test]
fn context_holds_the_fixed_conventions() {
    let context = context();
    assert_eq!(context.window_label, "main");
    assert_eq!(context.webview_label, "greet");
    assert_eq!(context.os_name, "linux");
    assert_eq!(context.isolation_origin, "");
    assert!(matches!(context.pattern, PatternObject::Brownfield));
    assert_eq!(context.protocol_scheme, "http");
    assert_eq!(context.invoke_key, "gpui");
    assert_eq!(context.fetch_channel_data_command, "plugin:__TAURI_CHANNEL__|fetch");
    assert_eq!(context.listeners_function, "__internal_unstable_listeners_function_id__");
    assert_eq!(context.listeners_object, "__internal_unstable_listeners_object_id__");
    assert!(!context.freeze_prototype);
}

#[test]
fn pattern_is_written_as_json() {
    assert_eq!(PatternObject::Brownfield.json(), "{\"pattern\":\"brownfield\"}");
}

#[test]
fn bridge_presence_script_looks_before_it_defines() {
    let script = bridge_presence_script();
    assert_eq!(script, expected_presence());
    assert!(script.contains("if (!window.__TAURI_INTERNALS__)"));
    assert!(script.contains("plugins: {}"));
}

#[test]
fn metadata_script_holds_both_labels_as_given() {
    assert_eq!(metadata_script("\"main\"", "\"greet\""), expected_metadata("\"main\"", "\"greet\""));
    assert_eq!(metadata_script("w", ""), expected_metadata("w", ""));
    assert!(metadata_script("w1", "v1").contains("currentWindow: { label: w1 },"));
    assert!(metadata_script("w1", "v1").contains("currentWebview: { label: v1 }"));
}

#[test]
fn event_script_names_the_function_and_the_listeners() {
    let script = event_initialization_script("dispatch", "held");
    assert_eq!(script, expected_event("dispatch", "held"));
    assert!(script.starts_with("Object.defineProperty(window, 'dispatch', {\n"));
    assert!(script.contains("(window['held'] && window['held'][eventData.event]) || []"));
    assert!(script.ends_with("    });\n  "));
    assert_eq!(event_initialization_script("", ""), expected_event("", ""));
}

#[test]
fn ipc_script_holds_the_isolation_origin_as_a_string_value() {
    let mut context = context();
    assert_eq!(ipc_script(&templates(), &context).ok(), Some("ipc(JSON.parse('\"\"'))".to_string()));
    context.isolation_origin = "https://iso.example".to_string();
    assert_eq!(
        ipc_script(&templates(), &context).ok(),
        Some("ipc(JSON.parse('\"https://iso.example\"'))".to_string())
    );
}

#[test]
fn pattern_script_holds_the_pattern_object() {
    assert_eq!(
        pattern_script(&templates(), &context()).ok(),
        Some("pattern(JSON.parse('{\"pattern\":\"brownfield\"}'))".to_string())
    );
}

#[test]
fn core_script_holds_its_three_values() {
    assert_eq!(core_script(&templates(), &context()).ok(), Some(expected_core()));
}

#[test]
fn values_are_escaped_for_json_and_for_the_script() {
    let mut context = context();
    context.os_name = "it's \"9\\5\"\n".to_string();
    assert_eq!(
        hotkey_zoom_script(&templates(), &context).ok(),
        Some(
            "zoom(JSON.parse('\"it\\'s \\\\\"9\\\\\\\\5\\\\\"\\\\n\"')) // JSON.parse('\"it\\'s \\\\\"9\\\\\\\\5\\\\\"\\\\n\"')"
                .to_string()
        )
    );
}

#[test]
fn hotkey_zoom_script_holds_the_name_of_the_system() {
    assert_eq!(
        hotkey_zoom_script(&templates(), &context()).ok(),
        Some("zoom(JSON.parse('\"linux\"')) // JSON.parse('\"linux\"')".to_string())
    );
}

#[test]
fn invoke_script_holds_the_function_as_it_is_and_the_values() {
    assert_eq!(
        invoke_script(&templates(), &context()).ok(),
        Some(
            "function process(m) { return m }; invoke(JSON.parse('\"linux\"'), JSON.parse('\"plugin:__TAURI_CHANNEL__|fetch\"'), JSON.parse('\"gpui\"'))"
                .to_string()
        )
    );
}

#[test]
fn initialization_script_puts_the_parts_into_the_frame() {
    let script = initialization_script(&templates(), &context(), "IPC", "PATTERN").ok();
    let expected = format!(
        "(function () {{\nPATTERN\nIPC\n{}\n{}\n\n}})()",
        expected_core(),
        expected_event(
            "__internal_unstable_listeners_function_id__",
            "__internal_unstable_listeners_object_id__"
        )
    );
    assert_eq!(script, Some(expected));
}

#[test]
fn initialization_script_freezes_the_prototype_where_asked() {
    let mut context = context();
    context.freeze_prototype = true;
    let script = initialization_script(&templates(), &context, "IPC", "PATTERN").ok().unwrap();
    assert!(script.ends_with("\nObject.freeze(Object.prototype)\n})()"));
    let unfrozen = initialization_script(&templates(), &self::context(), "IPC", "PATTERN").ok().unwrap();
    assert!(!unfrozen.contains("Object.freeze"));
}

#[test]
fn placeholders_in_a_raw_part_are_filled_by_later_fields() {
    let mut templates = templates();
    templates.init = "__RAW_ipc_script__|__RAW_core_script__".to_string();
    let script = initialization_script(&templates, &context(), "<__RAW_core_script__>", "").ok();
    assert_eq!(script, Some(format!("<{}>|{}", expected_core(), expected_core())));
}

#[test]
fn scripts_come_in_the_fixed_order() {
    let scripts = prepare_scripts(&templates(), &context()).ok().unwrap();
    let sources: Vec<String> = scripts.iter().map(|s| s.script.clone()).collect();
    assert_eq!(
        sources,
        vec![
            expected_presence(),
            expected_metadata("main", "greet"),
            expected_init(),
            "zoom(JSON.parse('\"linux\"')) // JSON.parse('\"linux\"')".to_string(),
            "function process(m) { return m }; invoke(JSON.parse('\"linux\"'), JSON.parse('\"plugin:__TAURI_CHANNEL__|fetch\"'), JSON.parse('\"gpui\"'))"
                .to_string(),
        ]
    );
    assert!(scripts.iter().all(|s| s.for_main_frame_only));
}

#[test]
fn rendering_twice_gives_the_same_scripts() {
    let first = prepare_scripts(&templates(), &context()).ok().unwrap();
    let second = prepare_scripts(&templates(), &context()).ok().unwrap();
    assert_eq!(first.len(), 5);
    assert_eq!(first.len(), second.len());
    for (a, b) in first.iter().zip(second.iter()) {
        assert_eq!(a.script.as_bytes(), b.script.as_bytes());
        assert_eq!(a.for_main_frame_only, b.for_main_frame_only);
    }
}

#[test]
fn scripts_follow_the_context() {
    let linux = prepare_scripts(&templates(), &context()).ok().unwrap();
    let other = ScriptContext::new("main".to_string(), "other".to_string(), "macos".to_string());
    let macos = prepare_scripts(&templates(), &other).ok().unwrap();
    assert_eq!(linux[0].script, macos[0].script);
    assert_ne!(linux[1].script, macos[1].script);
    assert_ne!(linux[2].script, macos[2].script);
    assert_eq!(macos[3].script, "zoom(JSON.parse('\"macos\"')) // JSON.parse('\"macos\"')");
}

#[test]
fn templates_without_placeholders_are_left_as_they_are() {
    let templates = ScriptTemplates {
        ipc: "a".to_string(),
        pattern: "b".to_string(),
        core: "c".to_string(),
        init: "d".to_string(),
        hotkey_zoom: "e".to_string(),
        invoke: "f".to_string(),
        process_ipc_message_fn: "g".to_string(),
        freeze_prototype: "h".to_string(),
    };
    let scripts = prepare_scripts(&templates, &context()).ok().unwrap();
    let sources: Vec<String> = scripts.iter().map(|s| s.script.clone()).collect();
    assert_eq!(
        sources,
        vec![
            expected_presence(),
            expected_metadata("main", "greet"),
            "d".to_string(),
            "e".to_string(),
            "f".to_string()
        ]
    );
}
