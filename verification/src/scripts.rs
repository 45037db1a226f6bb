//! The initialization scripts: what the content view runs, in order, before
//! any script of the page, to set up its half of the bridge.

use crate::template::{
    field_views, first_fault, render, rendered, FieldView, RenderError, TemplateField,
    TemplateValue, ValueView,
};
use vstd::prelude::*;

verus! {

/// The key that tags a request as coming from the invoke layer. A fixed
/// convention, not a secret.
pub const INVOKE_KEY: &'static str = "gpui";

/// The command by which the page fetches the data of a channel.
pub const FETCH_CHANNEL_DATA_COMMAND: &'static str = "plugin:__TAURI_CHANNEL__|fetch";

/// The scheme by which the core script reaches the bridge.
pub const PROTOCOL_SCHEME: &'static str = "http";

/// The global name of the function that dispatches events to listeners.
pub const LISTENERS_FUNCTION_ID: &'static str = "__internal_unstable_listeners_function_id__";

/// The global name of the object that holds the listeners.
pub const LISTENERS_OBJECT_ID: &'static str = "__internal_unstable_listeners_object_id__";

/// The script that marks the window as bridged and defines the registry of
/// plugins unless it is there already.
pub const BRIDGE_PRESENCE_SCRIPT: &'static str =
    "\n        \
    Object.defineProperty(window, 'isTauri', {\n          \
    value: true,\n        \
    });\n\
    \n        \
    if (!window.__TAURI_INTERNALS__) {\n          \
    Object.defineProperty(window, '__TAURI_INTERNALS__', {\n            \
    value: {\n              \
    plugins: {}\n            \
    }\n          \
    })\n        \
    }\n      ";

/// The metadata script up to the label of the window.
pub const METADATA_HEAD: &'static str =
    "\n          \
    Object.defineProperty(window.__TAURI_INTERNALS__, 'metadata', {\n            \
    value: {\n              \
    currentWindow: { label: ";

/// The metadata script between the two labels.
pub const METADATA_MIDDLE: &'static str =
    " },\n              \
    currentWebview: { label: ";

/// The metadata script after the label of the view.
pub const METADATA_TAIL: &'static str =
    " }\n            \
    }\n          \
    })\n        ";

/// The event script up to the name of the dispatch function.
pub const EVENT_HEAD: &'static str = "Object.defineProperty(window, '";

/// The event script between the name of the dispatch function and the first
/// mention of the listeners object.
pub const EVENT_OPEN: &'static str =
    "', {\n      \
    value: function (eventData, ids) {\n        \
    const listeners = (window['";

/// The event script between the two mentions of the listeners object.
pub const EVENT_MIDDLE: &'static str = "'] && window['";

/// The event script after the second mention of the listeners object.
pub const EVENT_TAIL: &'static str =
    "'][eventData.event]) || []\n        \
    for (const id of ids) {\n          \
    const listener = listeners[id]\n          \
    if (listener) {\n            \
    eventData.id = id\n            \
    window.__TAURI_INTERNALS__.runCallback(listener.handlerId, eventData)\n          \
    }\n        \
    }\n      \
    }\n    \
    });\n  ";

/// The JSON text of the brownfield pattern.
pub const BROWNFIELD_JSON: &'static str = "{\"pattern\":\"brownfield\"}";

/// An initialization script.
#[derive(Debug, Clone)]
pub struct InitializationScript {
    /// The script to run.
    pub script: String,
    /// Whether the script is injected into the main frame only.
    pub for_main_frame_only: bool,
}

/// What an initialization script holds.
pub struct ScriptView {
    pub script: Seq<char>,
    pub for_main_frame_only: bool,
}

impl View for InitializationScript {
    type V = ScriptView;

    open spec fn view(&self) -> ScriptView {
        ScriptView { script: self.script@, for_main_frame_only: self.for_main_frame_only }
    }
}

impl core::default::Default for InitializationScript {
    /// The empty script, for the main frame only.
    fn default() -> (r: Self)
        ensures
            r@ == main_frame(Seq::<char>::empty()),
    {
        InitializationScript { script: String::new(), for_main_frame_only: true }
    }
}

impl InitializationScript {
    /// A script for the main frame only.
    pub fn main_frame_script(script: String) -> (r: Self)
        ensures
            r@ == main_frame(script@),
            r.script == script,
    {
        InitializationScript { script, for_main_frame_only: true }
    }
}

/// How the page and the bridge are set up against each other.
#[derive(Debug)]
pub enum PatternObject {
    /// The page talks to the bridge directly.
    Brownfield,
}

impl PatternObject {
    /// The JSON text of the pattern: an object whose `pattern` is the
    /// pattern's name in lower case.
    pub open spec fn json_text(self) -> Seq<char> {
        match self {
            PatternObject::Brownfield => BROWNFIELD_JSON@,
        }
    }

    /// The JSON text of the pattern.
    pub fn json(&self) -> (text: String)
        ensures
            text@ == self.json_text(),
    {
        match self {
            PatternObject::Brownfield => String::from_str(BROWNFIELD_JSON),
        }
    }
}

/// The templates of the scripts.
pub struct ScriptTemplates {
    /// The transport of messages, with the field `isolation_origin`.
    pub ipc: String,
    /// The pattern of the bridge, with the field `pattern`.
    pub pattern: String,
    /// The core of the bridge, with the fields `os_name`, `protocol_scheme`
    /// and `invoke_key`.
    pub core: String,
    /// The frame that holds the raw fields `pattern_script`, `ipc_script`,
    /// `core_script`, `event_initialization_script` and `freeze_prototype`.
    pub init: String,
    /// Zoom by hotkey, with the field `os_name`.
    pub hotkey_zoom: String,
    /// The invoke layer, with the raw field `process_ipc_message_fn` and the
    /// fields `os_name`, `fetch_channel_data_command` and `invoke_key`.
    pub invoke: String,
    /// The function that processes a message, put into the invoke layer as it is.
    pub process_ipc_message_fn: String,
    /// The script that freezes the prototype of objects, put into the frame
    /// where the context asks for it.
    pub freeze_prototype: String,
}

/// What the templates hold.
pub struct TemplatesView {
    pub ipc: Seq<char>,
    pub pattern: Seq<char>,
    pub core: Seq<char>,
    pub init: Seq<char>,
    pub hotkey_zoom: Seq<char>,
    pub invoke: Seq<char>,
    pub process_ipc_message_fn: Seq<char>,
    pub freeze_prototype: Seq<char>,
}

impl View for ScriptTemplates {
    type V = TemplatesView;

    open spec fn view(&self) -> TemplatesView {
        TemplatesView {
            ipc: self.ipc@,
            pattern: self.pattern@,
            core: self.core@,
            init: self.init@,
            hotkey_zoom: self.hotkey_zoom@,
            invoke: self.invoke@,
            process_ipc_message_fn: self.process_ipc_message_fn@,
            freeze_prototype: self.freeze_prototype@,
        }
    }
}

/// The parameters of one view that the scripts are rendered with.
pub struct ScriptContext {
    /// The identifier of the window, put into the metadata as it is.
    pub window_label: String,
    /// The identifier of the view, put into the metadata as it is.
    pub webview_label: String,
    /// The name of the operating system.
    pub os_name: String,
    /// The origin of the isolation frame; empty where there is none.
    pub isolation_origin: String,
    /// The pattern of the bridge.
    pub pattern: PatternObject,
    /// The scheme by which the core script reaches the bridge.
    pub protocol_scheme: String,
    /// The key that tags requests of the invoke layer.
    pub invoke_key: String,
    /// The command by which the page fetches the data of a channel.
    pub fetch_channel_data_command: String,
    /// The global name of the function that dispatches events. It must not
    /// be a name that a page defines.
    pub listeners_function: String,
    /// The global name of the object that holds the listeners. It must not
    /// be a name that a page defines.
    pub listeners_object: String,
    /// Whether the frame holds the script that freezes the prototype.
    pub freeze_prototype: bool,
}

/// What a context holds.
pub struct ContextView {
    pub window_label: Seq<char>,
    pub webview_label: Seq<char>,
    pub os_name: Seq<char>,
    pub isolation_origin: Seq<char>,
    pub pattern: PatternObject,
    pub protocol_scheme: Seq<char>,
    pub invoke_key: Seq<char>,
    pub fetch_channel_data_command: Seq<char>,
    pub listeners_function: Seq<char>,
    pub listeners_object: Seq<char>,
    pub freeze_prototype: bool,
}

impl View for ScriptContext {
    type V = ContextView;

    open spec fn view(&self) -> ContextView {
        ContextView {
            window_label: self.window_label@,
            webview_label: self.webview_label@,
            os_name: self.os_name@,
            isolation_origin: self.isolation_origin@,
            pattern: self.pattern,
            protocol_scheme: self.protocol_scheme@,
            invoke_key: self.invoke_key@,
            fetch_channel_data_command: self.fetch_channel_data_command@,
            listeners_function: self.listeners_function@,
            listeners_object: self.listeners_object@,
            freeze_prototype: self.freeze_prototype,
        }
    }
}

/// The context of a view with the fixed conventions of the bridge.
pub open spec fn conventional(window_label: Seq<char>, webview_label: Seq<char>, os_name: Seq<char>)
    -> ContextView {
    ContextView {
        window_label,
        webview_label,
        os_name,
        isolation_origin: Seq::<char>::empty(),
        pattern: PatternObject::Brownfield,
        protocol_scheme: PROTOCOL_SCHEME@,
        invoke_key: INVOKE_KEY@,
        fetch_channel_data_command: FETCH_CHANNEL_DATA_COMMAND@,
        listeners_function: LISTENERS_FUNCTION_ID@,
        listeners_object: LISTENERS_OBJECT_ID@,
        freeze_prototype: false,
    }
}

impl ScriptContext {
    /// The context of a view with the fixed conventions of the bridge: the
    /// brownfield pattern, no isolation frame, no frozen prototype, and the
    /// fixed key, command, scheme and listener names.
    pub fn new(window_label: String, webview_label: String, os_name: String) -> (context: Self)
        ensures
            context@ == conventional(window_label@, webview_label@, os_name@),
    {
        ScriptContext {
            window_label,
            webview_label,
            os_name,
            isolation_origin: String::new(),
            pattern: PatternObject::Brownfield,
            protocol_scheme: String::from_str(PROTOCOL_SCHEME),
            invoke_key: String::from_str(INVOKE_KEY),
            fetch_channel_data_command: String::from_str(FETCH_CHANNEL_DATA_COMMAND),
            listeners_function: String::from_str(LISTENERS_FUNCTION_ID),
            listeners_object: String::from_str(LISTENERS_OBJECT_ID),
            freeze_prototype: false,
        }
    }
}

/// The script `script`, for the main frame only.
pub open spec fn main_frame(script: Seq<char>) -> ScriptView {
    ScriptView { script, for_main_frame_only: true }
}

/// A field that is put in as it is.
pub open spec fn raw_field(name: Seq<char>, text: Seq<char>) -> FieldView {
    FieldView { name, value: ValueView::Raw(text) }
}

/// A field that is put in as a JavaScript string value.
pub open spec fn text_field(name: Seq<char>, text: Seq<char>) -> FieldView {
    FieldView { name, value: ValueView::Text(text) }
}

/// A field that is put in as the JavaScript value of a JSON text.
pub open spec fn json_field(name: Seq<char>, json: Seq<char>) -> FieldView {
    FieldView { name, value: ValueView::Json(json) }
}

/// The script that puts the identifiers of the window and the view on the
/// bridge object.
pub open spec fn metadata_text(window_label: Seq<char>, webview_label: Seq<char>) -> Seq<char> {
    METADATA_HEAD@ + window_label + METADATA_MIDDLE@ + webview_label + METADATA_TAIL@
}

/// The script that defines the function that dispatches an event to its
/// listeners.
pub open spec fn event_text(function_name: Seq<char>, listeners: Seq<char>) -> Seq<char> {
    EVENT_HEAD@ + function_name + EVENT_OPEN@ + listeners + EVENT_MIDDLE@ + listeners + EVENT_TAIL@
}

/// The field of the transport script.
pub open spec fn ipc_fields(context: ContextView) -> Seq<FieldView> {
    seq![text_field("isolation_origin"@, context.isolation_origin)]
}

/// The field of the pattern script.
pub open spec fn pattern_fields(context: ContextView) -> Seq<FieldView> {
    seq![json_field("pattern"@, context.pattern.json_text())]
}

/// The fields of the core script.
pub open spec fn core_fields(context: ContextView) -> Seq<FieldView> {
    seq![
        text_field("os_name"@, context.os_name),
        text_field("protocol_scheme"@, context.protocol_scheme),
        text_field("invoke_key"@, context.invoke_key),
    ]
}

/// The field of the script for zoom by hotkey.
pub open spec fn hotkey_zoom_fields(context: ContextView) -> Seq<FieldView> {
    seq![text_field("os_name"@, context.os_name)]
}

/// The fields of the script of the invoke layer.
pub open spec fn invoke_fields(templates: TemplatesView, context: ContextView) -> Seq<FieldView> {
    seq![
        raw_field("process_ipc_message_fn"@, templates.process_ipc_message_fn),
        text_field("os_name"@, context.os_name),
        text_field("fetch_channel_data_command"@, context.fetch_channel_data_command),
        text_field("invoke_key"@, context.invoke_key),
    ]
}

/// What the frame holds in place of the script that freezes the prototype.
pub open spec fn freeze_text(templates: TemplatesView, context: ContextView) -> Seq<char> {
    if context.freeze_prototype {
        templates.freeze_prototype
    } else {
        Seq::<char>::empty()
    }
}

/// The fields of the frame: the pattern script, the transport script, the
/// core script, the event script and the freeze script, each put in as it is.
pub open spec fn initialization_fields(
    templates: TemplatesView,
    context: ContextView,
    ipc_script: Seq<char>,
    pattern_script: Seq<char>,
) -> Seq<FieldView> {
    seq![
        raw_field("pattern_script"@, pattern_script),
        raw_field("ipc_script"@, ipc_script),
        raw_field("core_script"@, core_text(templates, context)),
        raw_field(
            "event_initialization_script"@,
            event_text(context.listeners_function, context.listeners_object),
        ),
        raw_field("freeze_prototype"@, freeze_text(templates, context)),
    ]
}

/// The transport script.
pub open spec fn ipc_text(templates: TemplatesView, context: ContextView) -> Seq<char> {
    rendered(templates.ipc, ipc_fields(context))
}

/// The pattern script.
pub open spec fn pattern_text(templates: TemplatesView, context: ContextView) -> Seq<char> {
    rendered(templates.pattern, pattern_fields(context))
}

/// The core script.
pub open spec fn core_text(templates: TemplatesView, context: ContextView) -> Seq<char> {
    rendered(templates.core, core_fields(context))
}

/// The frame with its parts put in.
pub open spec fn initialization_text(
    templates: TemplatesView,
    context: ContextView,
    ipc_script: Seq<char>,
    pattern_script: Seq<char>,
) -> Seq<char> {
    rendered(
        templates.init,
        initialization_fields(templates, context, ipc_script, pattern_script),
    )
}

/// The script for zoom by hotkey.
pub open spec fn hotkey_zoom_text(templates: TemplatesView, context: ContextView) -> Seq<char> {
    rendered(templates.hotkey_zoom, hotkey_zoom_fields(context))
}

/// The script of the invoke layer.
pub open spec fn invoke_text(templates: TemplatesView, context: ContextView) -> Seq<char> {
    rendered(templates.invoke, invoke_fields(templates, context))
}

/// The first of two faults.
pub open spec fn or_else(first: Option<Seq<char>>, second: Option<Seq<char>>) -> Option<
    Seq<char>,
> {
    if first is Some {
        first
    } else {
        second
    }
}

/// The name of the first field of a view's scripts whose value cannot be
/// serialized, if there is one. The scripts are rendered in this order: the
/// transport, the pattern, the core, zoom by hotkey, the invoke layer.
pub open spec fn first_script_fault(templates: TemplatesView, context: ContextView) -> Option<
    Seq<char>,
> {
    or_else(
        first_fault(ipc_fields(context)),
        or_else(
            first_fault(pattern_fields(context)),
            or_else(
                first_fault(core_fields(context)),
                or_else(
                    first_fault(hotkey_zoom_fields(context)),
                    first_fault(invoke_fields(templates, context)),
                ),
            ),
        ),
    )
}

/// The scripts of a view, in the order in which they run: the presence of
/// the bridge, the metadata, the frame with the core of the bridge, zoom by
/// hotkey, and the invoke layer. Each is for the main frame only.
pub open spec fn scripts_of(templates: TemplatesView, context: ContextView) -> Seq<ScriptView> {
    seq![
        main_frame(BRIDGE_PRESENCE_SCRIPT@),
        main_frame(metadata_text(context.window_label, context.webview_label)),
        main_frame(
            initialization_text(
                templates,
                context,
                ipc_text(templates, context),
                pattern_text(templates, context),
            ),
        ),
        main_frame(hotkey_zoom_text(templates, context)),
        main_frame(invoke_text(templates, context)),
    ]
}

/// The scripts of a list, each by what it holds.
pub open spec fn script_views(scripts: Seq<InitializationScript>) -> Seq<ScriptView> {
    scripts.map_values(|script: InitializationScript| script@)
}

/// Fields that are all put in as they are can all be serialized.
proof fn raw_fields_have_no_fault(fields: Seq<FieldView>)
    requires
        forall|k: int| 0 <= k < fields.len() ==> (#[trigger] fields[k]).value is Raw,
    ensures
        first_fault(fields) is None,
    decreases fields.len(),
{
    if fields.len() > 0 {
        raw_fields_have_no_fault(fields.skip(1));
    }
}

fn raw(name: &str, content: &str) -> (field: TemplateField)
    ensures
        field@ == raw_field(name@, content@),
{
    TemplateField {
        name: String::from_str(name),
        value: TemplateValue::Raw(String::from_str(content)),
    }
}

fn text(name: &str, content: &str) -> (field: TemplateField)
    ensures
        field@ == text_field(name@, content@),
{
    TemplateField {
        name: String::from_str(name),
        value: TemplateValue::Text(String::from_str(content)),
    }
}

/// The script that marks the window as bridged and defines the registry of
/// plugins unless it is there already.
pub fn bridge_presence_script() -> (script: String)
    ensures
        script@ == BRIDGE_PRESENCE_SCRIPT@,
{
    String::from_str(BRIDGE_PRESENCE_SCRIPT)
}

/// The script that puts the identifiers of the window and the view on the
/// bridge object, each as it is given.
pub fn metadata_script(window_label: &str, webview_label: &str) -> (script: String)
    ensures
        script@ == metadata_text(window_label@, webview_label@),
{
    let mut script = String::from_str(METADATA_HEAD);
    script.append(window_label);
    script.append(METADATA_MIDDLE);
    script.append(webview_label);
    script.append(METADATA_TAIL);
    script
}

/// The script that defines, under the global name `function_name`, the
/// function that dispatches an event to the listeners held by the global
/// object `listeners`.
pub fn event_initialization_script(function_name: &str, listeners: &str) -> (script: String)
    ensures
        script@ == event_text(function_name@, listeners@),
{
    let mut script = String::from_str(EVENT_HEAD);
    script.append(function_name);
    script.append(EVENT_OPEN);
    script.append(listeners);
    script.append(EVENT_MIDDLE);
    script.append(listeners);
    script.append(EVENT_TAIL);
    script
}

/// The transport script.
pub fn ipc_script(templates: &ScriptTemplates, context: &ScriptContext) -> (r: Result<
    String,
    RenderError,
>)
    ensures
        match r {
            Ok(script) => first_fault(ipc_fields(context@)) is None && script@
                == ipc_text(templates@, context@),
            Err(e) => first_fault(ipc_fields(context@)) == Some(e.field@),
        },
{
    let mut fields: Vec<TemplateField> = Vec::new();
    fields.push(text("isolation_origin", context.isolation_origin.as_str()));
    assert(field_views(fields@) =~= ipc_fields(context@));
    render(templates.ipc.as_str(), &fields)
}

/// The pattern script.
pub fn pattern_script(templates: &ScriptTemplates, context: &ScriptContext) -> (r: Result<
    String,
    RenderError,
>)
    ensures
        match r {
            Ok(script) => first_fault(pattern_fields(context@)) is None && script@
                == pattern_text(templates@, context@),
            Err(e) => first_fault(pattern_fields(context@)) == Some(e.field@),
        },
{
    let mut fields: Vec<TemplateField> = Vec::new();
    fields.push(
        TemplateField {
            name: String::from_str("pattern"),
            value: TemplateValue::Json(context.pattern.json()),
        },
    );
    assert(field_views(fields@) =~= pattern_fields(context@));
    render(templates.pattern.as_str(), &fields)
}

/// The core script.
pub fn core_script(templates: &ScriptTemplates, context: &ScriptContext) -> (r: Result<
    String,
    RenderError,
>)
    ensures
        match r {
            Ok(script) => first_fault(core_fields(context@)) is None && script@
                == core_text(templates@, context@),
            Err(e) => first_fault(core_fields(context@)) == Some(e.field@),
        },
{
    let mut fields: Vec<TemplateField> = Vec::new();
    fields.push(text("os_name", context.os_name.as_str()));
    fields.push(text("protocol_scheme", context.protocol_scheme.as_str()));
    fields.push(text("invoke_key", context.invoke_key.as_str()));
    assert(field_views(fields@) =~= core_fields(context@));
    render(templates.core.as_str(), &fields)
}

/// The frame with the pattern script, the transport script, the core
/// script, the event script and the freeze script put in.
pub fn initialization_script(
    templates: &ScriptTemplates,
    context: &ScriptContext,
    ipc_script: &str,
    pattern_script: &str,
) -> (r: Result<String, RenderError>)
    ensures
        match r {
            Ok(script) => first_fault(core_fields(context@)) is None && script@
                == initialization_text(templates@, context@, ipc_script@, pattern_script@),
            Err(e) => first_fault(core_fields(context@)) == Some(e.field@),
        },
{
    let core = match core_script(templates, context) {
        Ok(script) => script,
        Err(e) => {
            return Err(e);
        },
    };
    let event = event_initialization_script(
        context.listeners_function.as_str(),
        context.listeners_object.as_str(),
    );
    let freeze = if context.freeze_prototype {
        templates.freeze_prototype.clone()
    } else {
        String::new()
    };
    let mut fields: Vec<TemplateField> = Vec::new();
    fields.push(raw("pattern_script", pattern_script));
    fields.push(raw("ipc_script", ipc_script));
    fields.push(raw("core_script", core.as_str()));
    fields.push(raw("event_initialization_script", event.as_str()));
    fields.push(raw("freeze_prototype", freeze.as_str()));
    assert(field_views(fields@) =~= initialization_fields(
        templates@,
        context@,
        ipc_script@,
        pattern_script@,
    ));
    proof {
        raw_fields_have_no_fault(field_views(fields@));
    }
    render(templates.init.as_str(), &fields)
}

/// The script for zoom by hotkey.
pub fn hotkey_zoom_script(templates: &ScriptTemplates, context: &ScriptContext) -> (r: Result<
    String,
    RenderError,
>)
    ensures
        match r {
            Ok(script) => first_fault(hotkey_zoom_fields(context@)) is None && script@
                == hotkey_zoom_text(templates@, context@),
            Err(e) => first_fault(hotkey_zoom_fields(context@)) == Some(e.field@),
        },
{
    let mut fields: Vec<TemplateField> = Vec::new();
    fields.push(text("os_name", context.os_name.as_str()));
    assert(field_views(fields@) =~= hotkey_zoom_fields(context@));
    render(templates.hotkey_zoom.as_str(), &fields)
}

/// The script of the invoke layer.
pub fn invoke_script(templates: &ScriptTemplates, context: &ScriptContext) -> (r: Result<
    String,
    RenderError,
>)
    ensures
        match r {
            Ok(script) => first_fault(invoke_fields(templates@, context@)) is None && script@
                == invoke_text(templates@, context@),
            Err(e) => first_fault(invoke_fields(templates@, context@)) == Some(e.field@),
        },
{
    let mut fields: Vec<TemplateField> = Vec::new();
    fields.push(raw("process_ipc_message_fn", templates.process_ipc_message_fn.as_str()));
    fields.push(text("os_name", context.os_name.as_str()));
    fields.push(text("fetch_channel_data_command", context.fetch_channel_data_command.as_str()));
    fields.push(text("invoke_key", context.invoke_key.as_str()));
    assert(field_views(fields@) =~= invoke_fields(templates@, context@));
    render(templates.invoke.as_str(), &fields)
}

/// The scripts of a view, in the order in which they run, or the field whose
/// value could not be serialized: then there are no scripts, and the view
/// cannot be made.
pub fn prepare_scripts(templates: &ScriptTemplates, context: &ScriptContext) -> (r: Result<
    Vec<InitializationScript>,
    RenderError,
>)
    ensures
        match r {
            Ok(scripts) => first_script_fault(templates@, context@) is None && script_views(
                scripts@,
            ) == scripts_of(templates@, context@),
            Err(e) => first_script_fault(templates@, context@) == Some(e.field@),
        },
{
    let ipc = match ipc_script(templates, context) {
        Ok(script) => script,
        Err(e) => {
            return Err(e);
        },
    };
    let pattern = match pattern_script(templates, context) {
        Ok(script) => script,
        Err(e) => {
            return Err(e);
        },
    };
    let init = match initialization_script(templates, context, ipc.as_str(), pattern.as_str()) {
        Ok(script) => script,
        Err(e) => {
            return Err(e);
        },
    };
    let hotkey_zoom = match hotkey_zoom_script(templates, context) {
        Ok(script) => script,
        Err(e) => {
            return Err(e);
        },
    };
    let invoke = match invoke_script(templates, context) {
        Ok(script) => script,
        Err(e) => {
            return Err(e);
        },
    };
    let mut scripts: Vec<InitializationScript> = Vec::new();
    scripts.push(InitializationScript::main_frame_script(bridge_presence_script()));
    scripts.push(
        InitializationScript::main_frame_script(
            metadata_script(context.window_label.as_str(), context.webview_label.as_str()),
        ),
    );
    scripts.push(InitializationScript::main_frame_script(init));
    scripts.push(InitializationScript::main_frame_script(hotkey_zoom));
    scripts.push(InitializationScript::main_frame_script(invoke));
    Ok(scripts)
}

/// Rendering is a function of what the templates and the context hold: two
/// lists of scripts rendered from the same templates and the same context are
/// the same, script by script and character by character.
pub proof fn rendering_is_deterministic(
    templates: ScriptTemplates,
    context: ScriptContext,
    again_templates: ScriptTemplates,
    again_context: ScriptContext,
    first: Seq<InitializationScript>,
    second: Seq<InitializationScript>,
)
    requires
        templates@ == again_templates@,
        context@ == again_context@,
        script_views(first) == scripts_of(templates@, context@),
        script_views(second) == scripts_of(again_templates@, again_context@),
    ensures
        first.len() == second.len(),
        forall|k: int|
            0 <= k < first.len() ==> (#[trigger] first[k]).script@ == second[k].script@
                && first[k].for_main_frame_only == second[k].for_main_frame_only,
{
    assert(script_views(second).len() == second.len());
    assert forall|k: int| 0 <= k < first.len() implies (#[trigger] first[k]).script@
        == second[k].script@ && first[k].for_main_frame_only
        == second[k].for_main_frame_only by {
    }
}

/// The scripts of a view are five, each for the main frame only, and the
/// first is the one that later ones build on: the presence of the bridge.
pub proof fn scripts_run_in_order(templates: TemplatesView, context: ContextView)
    ensures
        scripts_of(templates, context).len() == 5,
        forall|k: int|
            0 <= k < 5 ==> (#[trigger] scripts_of(templates, context)[k]).for_main_frame_only,
        scripts_of(templates, context)[0].script == BRIDGE_PRESENCE_SCRIPT@,
        scripts_of(templates, context)[1].script == metadata_text(
            context.window_label,
            context.webview_label,
        ),
{
}

} // verus!
