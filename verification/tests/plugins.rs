use blogr::config::Config;
use blogr::newsletter::composer::Newsletter;
use blogr::newsletter::plugin::{
    command_owners, create_plugin_context, hook_result, is_plugin_enabled, not_implemented, plugin_error_message,
    NewsletterPlugin, PluginConfig, PluginContext, PluginHook, PluginManager, PluginMetadata, PluginResult,
};
use std::collections::HashMap;
use std::path::PathBuf;
use std::sync::Arc;

struct TestPlugin {
    metadata: PluginMetadata,
    initialized: bool,
    commands: Vec<String>,
    fails: bool,
}

impl TestPlugin {
    fn new() -> Self {
        Self::named("test-plugin")
    }

    fn named(name: &str) -> Self {
        Self {
            metadata: PluginMetadata {
                name: name.to_string(),
                version: "1.0.0".to_string(),
                author: "Test Author".to_string(),
                description: "A test plugin".to_string(),
                homepage: None,
                repository: None,
                license: Some("MIT".to_string()),
                keywords: vec!["test".to_string()],
                dependencies: Vec::new(),
                min_blogr_version: None,
            },
            initialized: false,
            commands: Vec::new(),
            fails: false,
        }
    }
}

impl NewsletterPlugin<()> for TestPlugin {
    fn metadata(&self) -> &PluginMetadata {
        &self.metadata
    }

    fn initialize(&mut self, _config: &PluginConfig) -> Result<(), String> {
        self.initialized = true;
        Ok(())
    }

    fn handles_hook(&self, hook: &PluginHook) -> bool {
        matches!(hook, PluginHook::PreSend | PluginHook::PostSend)
    }

    fn execute_hook(&self, _context: &PluginContext<()>) -> Result<PluginResult, String> {
        if self.fails {
            return Err("broken".to_string());
        }
        Ok(PluginResult {
            success: true,
            message: Some(format!("{} executed", self.metadata.name)),
            data: HashMap::new(),
            modified_newsletter: None,
            modified_subscribers: None,
        })
    }

    fn custom_commands(&self) -> Vec<String> {
        self.commands.clone()
    }

    fn execute_command(&self, command: &str, _args: &[String], _context: &PluginContext<()>) -> Result<PluginResult, String> {
        Ok(PluginResult {
            success: true,
            message: Some(format!("{} ran {}", self.metadata.name, command)),
            data: HashMap::new(),
            modified_newsletter: None,
            modified_subscribers: None,
        })
    }
}

type Manager = PluginManager<(), dyn NewsletterPlugin<()>>;

fn context(hook: PluginHook) -> PluginContext<()> {
    create_plugin_context(Arc::new(Config::default()), Arc::new(()), PathBuf::from("/tmp"), hook, HashMap::new())
}

fn enabled(names: &[(&str, bool)]) -> Config {
    let mut config = Config::default();
    config.newsletter.plugins = Some(
        names
            .iter()
            .map(|(n, e)| (n.to_string(), PluginConfig { enabled: *e, config: HashMap::new() }))
            .collect(),
    );
    config
}

#[test]
fn test_plugin_registration() {
    let mut manager = Manager::new(PathBuf::from("/tmp"));
    let plugin = Box::new(TestPlugin::new());

    assert!(manager.register_plugin(plugin).is_ok());
    assert_eq!(manager.plugins.len(), 1);
}

#[test]
fn test_plugin_hook_execution() {
    let manager = Manager::new(PathBuf::from("/tmp"));
    assert_eq!(manager.plugins.len(), 0);
}

#[test]
fn plugins_run_only_when_enabled() {
    let configs = vec![
        ("a".to_string(), PluginConfig { enabled: true, config: HashMap::new() }),
        ("b".to_string(), PluginConfig::disabled()),
        ("a".to_string(), PluginConfig::disabled()),
    ];
    assert!(is_plugin_enabled(&configs, "a"));
    assert!(!is_plugin_enabled(&configs, "b"));
    assert!(!is_plugin_enabled(&configs, "c"));
    assert_eq!(plugin_error_message("boom"), "Plugin error: boom");
    assert_eq!(not_implemented("Command", "x"), "Command 'x' not implemented");
}

#[test]
fn settings_load_with_later_entries_winning() {
    let mut manager = Manager::new(PathBuf::from("/tmp"));
    manager.load_plugin_configs(&enabled(&[("a", false), ("b", true), ("a", true)])).unwrap();
    assert_eq!(manager.plugin_configs.len(), 2);
    assert!(is_plugin_enabled(&manager.plugin_configs, "a"));
    assert!(is_plugin_enabled(&manager.plugin_configs, "b"));
    manager.load_plugin_configs(&enabled(&[("b", false)])).unwrap();
    assert!(!is_plugin_enabled(&manager.plugin_configs, "b"));
    assert!(is_plugin_enabled(&manager.plugin_configs, "a"));
}

#[test]
fn hooks_run_enabled_plugins_that_handle_them() {
    let mut manager = Manager::new(PathBuf::from("/tmp"));
    manager.load_plugin_configs(&enabled(&[("one", true), ("two", false), ("three", true)])).unwrap();
    manager.register_plugin(Box::new(TestPlugin::named("one"))).unwrap();
    manager.register_plugin(Box::new(TestPlugin::named("two"))).unwrap();
    let mut failing = TestPlugin::named("three");
    failing.fails = true;
    manager.register_plugin(Box::new(failing)).unwrap();
    manager.register_plugin(Box::new(TestPlugin::named("unconfigured"))).unwrap();

    let results = manager.execute_hook(PluginHook::PreSend, &context(PluginHook::PreSend)).unwrap();
    assert_eq!(results.len(), 2);
    assert!(results[0].success);
    assert_eq!(results[0].message.as_deref(), Some("one executed"));
    assert!(!results[1].success);
    assert_eq!(results[1].message.as_deref(), Some("Plugin error: broken"));

    let none = manager.execute_hook(PluginHook::PreFetch, &context(PluginHook::PreFetch)).unwrap();
    assert!(none.is_empty());

    let names: Vec<&str> = manager.list_plugins().iter().map(|m| m.name.as_str()).collect();
    assert_eq!(names, vec!["one", "two", "three", "unconfigured"]);
    assert_eq!(manager.get_plugin("three").unwrap().metadata().name, "three");
    assert!(manager.get_plugin("missing").is_none());
}

#[test]
fn custom_commands_go_to_the_first_enabled_plugin_offering_them() {
    let mut manager = Manager::new(PathBuf::from("/tmp"));
    manager.load_plugin_configs(&enabled(&[("one", true), ("two", true), ("off", false)])).unwrap();
    let mut one = TestPlugin::named("one");
    one.commands = vec!["stats".to_string(), "export".to_string()];
    let mut two = TestPlugin::named("two");
    two.commands = vec!["export".to_string()];
    let mut off = TestPlugin::named("off");
    off.commands = vec!["secret".to_string()];
    manager.register_plugin(Box::new(one)).unwrap();
    manager.register_plugin(Box::new(two)).unwrap();
    manager.register_plugin(Box::new(off)).unwrap();

    let mut owners = manager.get_custom_commands();
    owners.sort();
    assert_eq!(
        owners,
        vec![("export".to_string(), "two".to_string()), ("stats".to_string(), "one".to_string())]
    );
    let ctx = context(PluginHook::CustomCommand);
    let r = manager.execute_custom_command("export", &[], &ctx).unwrap();
    assert_eq!(r.message.as_deref(), Some("one ran export"));
    match manager.execute_custom_command("secret", &[], &ctx) {
        Err(m) => assert_eq!(m, "Custom command 'secret' not found"),
        Ok(_) => panic!("a disabled plugin ran a command"),
    }
    let newsletter = Newsletter::new("s".to_string(), "h".to_string(), "t".to_string());
    match manager.render_custom_template("weekly", &newsletter, &ctx) {
        Err(m) => assert_eq!(m, "Custom template 'weekly' not found"),
        Ok(_) => panic!("no plugin offers templates"),
    }
    assert!(manager.get_custom_templates().is_empty());
}

#[test]
fn command_owner_map_keeps_the_last_offer() {
    let offers = vec![
        ("a".to_string(), vec!["x".to_string(), "y".to_string()]),
        ("b".to_string(), vec!["y".to_string()]),
    ];
    assert_eq!(
        command_owners(&offers),
        vec![("x".to_string(), "a".to_string()), ("y".to_string(), "b".to_string())]
    );
}

#[test]
fn a_failed_hook_becomes_a_failed_result() {
    let r = hook_result(Err("down".to_string()));
    assert!(!r.success);
    assert_eq!(r.message.as_deref(), Some("Plugin error: down"));
    let ok = hook_result(Ok(PluginResult {
        success: true,
        message: None,
        data: HashMap::new(),
        modified_newsletter: None,
        modified_subscribers: None,
    }));
    assert!(ok.success && ok.message.is_none());
}
