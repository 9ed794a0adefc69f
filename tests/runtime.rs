use platypus::cache::{CacheManager, DataCache, ResourceCache};
use platypus::config::{
    DEFAULT_APP_NAME, DEFAULT_HOST, DEFAULT_MAX_BODY_SIZE, DEFAULT_PORT,
    DEFAULT_SESSION_TIMEOUT, ServerConfig, max_body_size_usize, session_timeout_duration,
};
use platypus::components::{ComponentInstance, ComponentMetadata, ComponentProperty, ComponentRegistry, CustomComponent};
use platypus::keyed::KeyedList;
use platypus::navigation::{MultiPageApp, Navigation, Page, PageLink};
use platypus::secrets::{Secret, SecretSource, SecretsManager};

#[test]
fn test_data_cache_basic() {
    let mut cache = DataCache::new();
    cache.set("key1".to_string(), "value1".to_string(), None);
    assert_eq!(cache.get("key1"), Some("value1".to_string()));
}

#[test]
fn data_cache_entry_expires_after_its_time_to_live() {
    let mut cache = DataCache::new();
    cache.set_at("key1".to_string(), "value1".to_string(), Some(100), 1000);
    assert_eq!(cache.get_at("key1", 1050), Some("value1".to_string()));
    assert_eq!(cache.get_at("key1", 1150), None);
    assert_eq!(cache.size(), 0);
}

#[test]
fn data_cache_cleanup_drops_only_expired_entries() {
    let mut cache = DataCache::new();
    cache.set_at("a".to_string(), "1".to_string(), Some(10), 0);
    cache.set_at("b".to_string(), "2".to_string(), None, 0);
    cache.set_at("c".to_string(), "3".to_string(), Some(100), 0);
    cache.cleanup_at(50);
    assert_eq!(cache.size(), 2);
    assert_eq!(cache.get_at("b", 50), Some("2".to_string()));
    assert_eq!(cache.get_at("c", 50), Some("3".to_string()));
}

#[test]
fn test_resource_cache() {
    let mut cache = ResourceCache::new();
    cache.set("resource1".to_string(), "data1".to_string());
    assert_eq!(cache.get("resource1"), Some("data1".to_string()));
}

#[test]
fn test_cache_manager() {
    let mut manager = CacheManager::new();
    manager.data_cache().set("key1".to_string(), "value1".to_string(), None);
    manager.resource_cache().set("resource1".to_string(), "data1".to_string());
    assert_eq!(manager.total_size(), 2);
    manager.clear_all();
    assert_eq!(manager.total_size(), 0);
}

#[test]
fn components_test_component_metadata() {
    let metadata = ComponentMetadata::new("MyComponent", "1.0.0")
        .with_author("John Doe")
        .with_description("A custom component");

    assert_eq!(metadata.name, "MyComponent");
    assert_eq!(metadata.version, "1.0.0");
    assert_eq!(metadata.author, Some("John Doe".to_string()));
}

#[test]
fn final_features_tests_test_component_metadata() {
    let metadata = ComponentMetadata::new("DataTable", "1.0.0")
        .with_author("Jane Doe")
        .with_description("A reusable data table component");

    assert_eq!(metadata.name, "DataTable");
    assert_eq!(metadata.version, "1.0.0");
    assert_eq!(metadata.author, Some("Jane Doe".to_string()));
}

#[test]
fn navigation_test_page_creation() {
    let page = Page::new("home", "Home Page")
        .with_icon("🏠")
        .with_description("Welcome to home");
    assert_eq!(page.name, "home");
    assert_eq!(page.title, "Home Page");
    assert_eq!(page.icon, Some("🏠".to_string()));
}

#[test]
fn test_navigation() {
    let mut nav = Navigation::new();
    nav.add_page(Page::new("home", "Home"));
    nav.add_page(Page::new("about", "About"));
    assert_eq!(nav.page_count(), 2);
    assert_eq!(nav.current_page().unwrap().name, "home");
    nav.navigate_to("about");
    assert_eq!(nav.current_page().unwrap().name, "about");
}

#[test]
fn navigation_test_page_link() {
    let link = PageLink::new("Go Home", "home").with_icon("🏠");
    assert_eq!(link.label, "Go Home");
    assert_eq!(link.page, "home");
    assert_eq!(link.icon, Some("🏠".to_string()));
}

#[test]
fn test_multi_page_app() {
    let mut app = MultiPageApp::new();
    app.add_page(Page::new("home", "Home"), "Home content".to_string());
    app.add_page(Page::new("about", "About"), "About content".to_string());
    assert_eq!(app.current_page_content(), Some("Home content".to_string()));
    app.navigate("about");
    assert_eq!(app.current_page_content(), Some("About content".to_string()));
}

#[test]
fn navigation_pages_come_in_insertion_order() {
    let mut nav = Navigation::new();
    nav.add_page(Page::new("b", "B"));
    nav.add_page(Page::new("a", "A"));
    nav.add_page(Page::new("b", "B again"));
    let pages = nav.pages();
    assert_eq!(pages.len(), 2);
    assert_eq!(pages[0].name, "b");
    assert_eq!(pages[0].title, "B again");
    assert_eq!(pages[1].name, "a");
    assert!(nav.get_page("c").is_none());
}

#[test]
fn final_features_tests_test_secret_creation() {
    let secret = Secret::new("my_api_key_123", SecretSource::Memory);

    assert_eq!(secret.value(), "my_api_key_123");
    assert_eq!(secret.source(), &SecretSource::Memory);
}

#[test]
fn secrets_test_secret_creation() {
    let secret = Secret::new("my_secret_value", SecretSource::Memory);
    assert_eq!(secret.value(), "my_secret_value");
    assert_eq!(secret.source(), &SecretSource::Memory);
}

#[test]
fn secrets_test_secret_masking() {
    let secret = Secret::new("password123", SecretSource::Memory);
    let masked = secret.masked();
    assert_eq!(masked, "p*********3");
}

#[test]
fn test_secrets_manager() {
    let mut manager = SecretsManager::new();
    manager.set_secret("api_key", "secret_key_123");
    assert!(manager.has_secret("api_key"));
    assert_eq!(manager.get("api_key"), Some("secret_key_123".to_string()));
}

#[test]
fn secrets_test_secrets_manager_remove() {
    let mut manager = SecretsManager::new();
    manager.set_secret("key1", "value1");
    assert_eq!(manager.count(), 1);
    manager.remove_secret("key1");
    assert_eq!(manager.count(), 0);
}

#[test]
fn secrets_test_secrets_manager_clear() {
    let mut manager = SecretsManager::new();
    manager.set_secret("key1", "value1");
    manager.set_secret("key2", "value2");
    assert_eq!(manager.count(), 2);
    manager.clear();
    assert_eq!(manager.count(), 0);
}

#[test]
fn secrets_test_secrets_manager_keys() {
    let mut manager = SecretsManager::new();
    manager.set_secret("key1", "value1");
    manager.set_secret("key2", "value2");
    let keys = manager.keys();
    assert_eq!(keys.len(), 2);
    assert!(keys.contains(&"key1".to_string()));
}

#[test]
fn test_secrets_validation() {
    let mut manager = SecretsManager::new();
    manager.set_secret("api_key", "key123");
    assert!(manager.validate_required(&["api_key"]).is_ok());
    assert!(manager.validate_required(&["missing_key"]).is_err());
}

#[test]
fn masking_counts_bytes() {
    let secret = Secret::new("héllo", SecretSource::File);
    assert_eq!(secret.masked(), "h****o");
    assert_eq!(Secret::new("é", SecretSource::Memory).masked(), "**");
    assert_eq!(Secret::new("aéb", SecretSource::Memory).masked(), "a**b");
    assert_eq!(Secret::new("", SecretSource::Memory).masked(), "");
}

#[test]
fn final_features_tests_test_secret_masking() {
    let secret = Secret::new("password123", SecretSource::Memory);
    let masked = secret.masked();

    assert_eq!(masked, "p*********3");
    assert!(!masked.contains("password"));
}

#[test]
fn test_secret_masking_short() {
    let secret = Secret::new("ab", SecretSource::Memory);
    assert_eq!(secret.masked(), "**");
}

#[test]
fn test_secrets_manager_set_get() {
    let mut manager = SecretsManager::new();

    manager.set_secret("api_key", "secret_key_123");

    assert!(manager.has_secret("api_key"));
    assert_eq!(manager.get("api_key"), Some("secret_key_123".to_string()));
}

#[test]
fn test_secrets_manager_multiple() {
    let mut manager = SecretsManager::new();

    manager.set_secret("db_password", "db_pass_123");
    manager.set_secret("api_token", "token_456");
    manager.set_secret("jwt_secret", "jwt_789");

    assert_eq!(manager.count(), 3);
}

#[test]
fn final_features_tests_test_secrets_manager_remove() {
    let mut manager = SecretsManager::new();

    manager.set_secret("key1", "value1");
    assert_eq!(manager.count(), 1);

    let removed = manager.remove_secret("key1");
    assert!(removed.is_some());
    assert_eq!(manager.count(), 0);
}

#[test]
fn final_features_tests_test_secrets_manager_clear() {
    let mut manager = SecretsManager::new();

    manager.set_secret("key1", "value1");
    manager.set_secret("key2", "value2");
    manager.set_secret("key3", "value3");

    assert_eq!(manager.count(), 3);

    manager.clear();
    assert_eq!(manager.count(), 0);
}

#[test]
fn final_features_tests_test_secrets_manager_keys() {
    let mut manager = SecretsManager::new();

    manager.set_secret("secret1", "value1");
    manager.set_secret("secret2", "value2");

    let keys = manager.keys();
    assert_eq!(keys.len(), 2);
    assert!(keys.contains(&"secret1".to_string()));
    assert!(keys.contains(&"secret2".to_string()));
}

#[test]
fn test_secrets_manager_validation() {
    let mut manager = SecretsManager::new();

    manager.set_secret("api_key", "key123");
    manager.set_secret("db_password", "pass123");

    assert!(manager.validate_required(&["api_key", "db_password"]).is_ok());

    assert!(manager.validate_required(&["api_key", "missing_secret"]).is_err());
}

#[test]
fn validation_names_every_missing_secret() {
    let manager = SecretsManager::new();
    assert_eq!(
        manager.validate_required(&["a", "b"]),
        Err("Missing required secrets: a, b".to_string())
    );
}

#[test]
fn env_batch_reports_missing_variables() {
    let mut manager = SecretsManager::new();
    let found = vec![
        ("A".to_string(), Some("1".to_string())),
        ("B".to_string(), None),
        ("C".to_string(), None),
    ];
    assert_eq!(
        manager.load_env_batch(found),
        Err("Failed to load secrets: Environment variable 'B' not found, Environment variable 'C' not found"
            .to_string())
    );
    assert_eq!(manager.get("A"), Some("1".to_string()));
    assert_eq!(manager.get_secret("A").unwrap().source(), &SecretSource::Environment);
}

#[test]
fn test_secrets_manager_get_secret() {
    let mut manager = SecretsManager::new();

    manager.set_secret("api_key", "key123");

    let secret = manager.get_secret("api_key");
    assert!(secret.is_some());
    assert_eq!(secret.unwrap().value(), "key123");
}

#[test]
fn test_secrets_manager_performance() {
    let mut manager = SecretsManager::new();

    let start = std::time::Instant::now();

    for i in 0..1000 {
        manager.set_secret(format!("secret_{}", i).as_str(), format!("value_{}", i).as_str());
    }

    let duration = start.elapsed();
    assert!(duration.as_millis() < 100);
}

#[test]
fn test_empty_secrets_manager() {
    let manager = SecretsManager::new();

    assert_eq!(manager.count(), 0);
    assert_eq!(manager.keys().len(), 0);
    assert!(manager.get("NonExistent").is_none());
}

#[test]
fn test_secret_with_special_characters() {
    let secret = Secret::new("p@$$w0rd!#%&*()[]{}|;:,.<>?", SecretSource::Memory);

    assert_eq!(secret.value(), "p@$$w0rd!#%&*()[]{}|;:,.<>?");
    assert!(!secret.masked().contains("@$$w0rd"));
}

#[test]
fn test_secrets_manager_duplicate_keys() {
    let mut manager = SecretsManager::new();

    manager.set_secret("key", "value1");
    manager.set_secret("key", "value2");

    assert_eq!(manager.count(), 1);
    assert_eq!(manager.get("key"), Some("value2".to_string()));
}

#[test]
fn test_session_state_performance() {
    let mut session: KeyedList<String> = KeyedList::new();

    let start = std::time::Instant::now();

    for i in 0..1000 {
        session.insert(format!("key_{}", i), format!("value_{}", i));
    }

    let duration = start.elapsed();
    assert!(duration.as_millis() < 50);
}

#[test]
fn test_session_state_collision() {
    let mut session: KeyedList<String> = KeyedList::new();

    session.insert("key".to_string(), "value1".to_string());
    session.insert("key".to_string(), "value2".to_string());

    assert_eq!(session.len(), 1);
    assert_eq!(session.get("key"), Some(&"value2".to_string()));
}

#[test]
fn test_cache_data_basic() {
    let mut cache = DataCache::new();

    cache.set("key1".to_string(), "value1".to_string(), None);
    assert_eq!(cache.get("key1"), Some("value1".to_string()));
}

#[test]
fn test_cache_data_multiple_entries() {
    let mut cache = DataCache::new();

    cache.set("key1".to_string(), "value1".to_string(), None);
    cache.set("key2".to_string(), "value2".to_string(), None);
    cache.set("key3".to_string(), "value3".to_string(), None);

    assert_eq!(cache.size(), 3);
    assert_eq!(cache.get("key2"), Some("value2".to_string()));
}

#[test]
fn test_cache_data_overwrite() {
    let mut cache = DataCache::new();

    cache.set("key1".to_string(), "value1".to_string(), None);
    cache.set("key1".to_string(), "value2".to_string(), None);

    assert_eq!(cache.get("key1"), Some("value2".to_string()));
    assert_eq!(cache.size(), 1);
}

#[test]
fn test_cache_data_clear() {
    let mut cache = DataCache::new();

    cache.set("key1".to_string(), "value1".to_string(), None);
    cache.set("key2".to_string(), "value2".to_string(), None);

    assert_eq!(cache.size(), 2);

    cache.clear();
    assert_eq!(cache.size(), 0);
    assert_eq!(cache.get("key1"), None);
}

#[test]
fn test_cache_resource_basic() {
    let mut cache = ResourceCache::new();

    cache.set("resource1".to_string(), "data1".to_string());
    assert_eq!(cache.get("resource1"), Some("data1".to_string()));
}

#[test]
fn test_cache_resource_multiple() {
    let mut cache = ResourceCache::new();

    cache.set("db".to_string(), "database_connection".to_string());
    cache.set("api".to_string(), "api_client".to_string());
    cache.set("config".to_string(), "app_config".to_string());

    assert_eq!(cache.count(), 3);
}

#[test]
fn test_cache_resource_clear() {
    let mut cache = ResourceCache::new();

    cache.set("resource1".to_string(), "data1".to_string());
    cache.set("resource2".to_string(), "data2".to_string());

    assert_eq!(cache.count(), 2);

    cache.clear();
    assert_eq!(cache.count(), 0);
}

#[test]
fn test_cache_manager_basic() {
    let mut manager = CacheManager::new();

    manager.data_cache().set("key1".to_string(), "value1".to_string(), None);
    manager.resource_cache().set("resource1".to_string(), "data1".to_string());

    assert_eq!(manager.total_size(), 2);
}

#[test]
fn test_cache_manager_clear_all() {
    let mut manager = CacheManager::new();

    manager.data_cache().set("key1".to_string(), "value1".to_string(), None);
    manager.resource_cache().set("resource1".to_string(), "data1".to_string());

    assert_eq!(manager.total_size(), 2);

    manager.clear_all();
    assert_eq!(manager.total_size(), 0);
}

#[test]
fn phase5_features_tests_test_page_creation() {
    let page = Page::new("home", "Home Page")
        .with_icon("🏠")
        .with_description("Welcome to home");

    assert_eq!(page.name, "home");
    assert_eq!(page.title, "Home Page");
    assert_eq!(page.icon, Some("🏠".to_string()));
    assert_eq!(page.description, Some("Welcome to home".to_string()));
}

#[test]
fn test_navigation_basic() {
    let mut nav = Navigation::new();

    nav.add_page(Page::new("home", "Home"));
    nav.add_page(Page::new("about", "About"));

    assert_eq!(nav.page_count(), 2);
    assert_eq!(nav.current_page().unwrap().name, "home");
}

#[test]
fn test_navigation_switching() {
    let mut nav = Navigation::new();

    nav.add_page(Page::new("home", "Home"));
    nav.add_page(Page::new("about", "About"));
    nav.add_page(Page::new("contact", "Contact"));

    assert_eq!(nav.current_page().unwrap().name, "home");

    nav.navigate_to("about");
    assert_eq!(nav.current_page().unwrap().name, "about");

    nav.navigate_to("contact");
    assert_eq!(nav.current_page().unwrap().name, "contact");
}

#[test]
fn test_navigation_invalid_page() {
    let mut nav = Navigation::new();

    nav.add_page(Page::new("home", "Home"));

    let result = nav.navigate_to("nonexistent");
    assert!(!result);
    assert_eq!(nav.current_page().unwrap().name, "home");
}

#[test]
fn phase5_features_tests_test_page_link() {
    let link = PageLink::new("Go Home", "home").with_icon("🏠");

    assert_eq!(link.label, "Go Home");
    assert_eq!(link.page, "home");
    assert_eq!(link.icon, Some("🏠".to_string()));
}

#[test]
fn test_multi_page_app_basic() {
    let mut app = MultiPageApp::new();

    app.add_page(Page::new("home", "Home"), "Home content".to_string());
    app.add_page(Page::new("about", "About"), "About content".to_string());

    assert_eq!(app.current_page_content(), Some("Home content".to_string()));
}

#[test]
fn test_multi_page_app_navigation() {
    let mut app = MultiPageApp::new();

    app.add_page(Page::new("home", "Home"), "Home content".to_string());
    app.add_page(Page::new("about", "About"), "About content".to_string());
    app.add_page(Page::new("contact", "Contact"), "Contact content".to_string());

    assert_eq!(app.current_page_content(), Some("Home content".to_string()));

    app.navigate("about");
    assert_eq!(app.current_page_content(), Some("About content".to_string()));

    app.navigate("contact");
    assert_eq!(app.current_page_content(), Some("Contact content".to_string()));
}

#[test]
fn test_multi_page_app_with_icons() {
    let mut app = MultiPageApp::new();

    app.add_page(Page::new("home", "Home").with_icon("🏠"), "Home".to_string());
    app.add_page(Page::new("settings", "Settings").with_icon("⚙️"), "Settings".to_string());
    app.add_page(Page::new("help", "Help").with_icon("❓"), "Help".to_string());

    let nav = app.navigation();
    let pages = nav.pages();

    assert_eq!(pages.len(), 3);

    let home_page = pages.iter().find(|p| p.name == "home").unwrap();
    assert_eq!(home_page.icon, Some("🏠".to_string()));

    let settings_page = pages.iter().find(|p| p.name == "settings").unwrap();
    assert_eq!(settings_page.icon, Some("⚙️".to_string()));

    let help_page = pages.iter().find(|p| p.name == "help").unwrap();
    assert_eq!(help_page.icon, Some("❓".to_string()));
}

#[test]
fn test_cache_with_multi_page_app() {
    let mut cache = DataCache::new();
    let mut app = MultiPageApp::new();

    app.add_page(Page::new("home", "Home"), "Home content".to_string());
    app.add_page(Page::new("about", "About"), "About content".to_string());

    cache.set("current_page".to_string(), "home".to_string(), None);

    assert_eq!(cache.get("current_page"), Some("home".to_string()));
}

#[test]
fn test_resource_cache_for_app_data() {
    let mut resource_cache = ResourceCache::new();

    resource_cache.set("app_config".to_string(), r#"{"theme": "dark"}"#.to_string());
    resource_cache.set("user_data".to_string(), r#"{"name": "John"}"#.to_string());

    assert_eq!(resource_cache.count(), 2);
    assert!(resource_cache.get("app_config").is_some());
}

#[test]
fn test_multi_page_with_caching() {
    let mut cache = DataCache::new();
    let mut app = MultiPageApp::new();

    app.add_page(Page::new("page1", "Page 1"), "Content 1".to_string());
    app.add_page(Page::new("page2", "Page 2"), "Content 2".to_string());

    cache.set("visited_pages".to_string(), "page1,page2".to_string(), None);

    assert_eq!(cache.get("visited_pages"), Some("page1,page2".to_string()));
}

#[test]
fn test_cache_performance() {
    let mut cache = DataCache::new();

    let start = std::time::Instant::now();

    for i in 0..1000 {
        cache.set(format!("key_{}", i), format!("value_{}", i), None);
    }

    let duration = start.elapsed();
    assert!(duration.as_millis() < 100);
}

#[test]
fn test_multi_page_app_performance() {
    let mut app = MultiPageApp::new();

    let start = std::time::Instant::now();

    for i in 0..100 {
        app.add_page(
            Page::new(format!("page_{}", i).as_str(), format!("Page {}", i).as_str()),
            format!("Content {}", i),
        );
    }

    let duration = start.elapsed();
    assert!(duration.as_millis() < 100);
}

#[test]
fn test_navigation_performance() {
    let mut nav = Navigation::new();

    for i in 0..100 {
        nav.add_page(Page::new(format!("page_{}", i).as_str(), format!("Page {}", i).as_str()));
    }

    let start = std::time::Instant::now();

    for i in 0..100 {
        nav.navigate_to(&format!("page_{}", i));
    }

    let duration = start.elapsed();
    assert!(duration.as_millis() < 50);
}

#[test]
fn test_cache_empty_key() {
    let mut cache = DataCache::new();

    cache.set("".to_string(), "value".to_string(), None);
    assert_eq!(cache.get(""), Some("value".to_string()));
}

#[test]
fn test_navigation_single_page() {
    let mut nav = Navigation::new();

    nav.add_page(Page::new("only", "Only Page"));

    assert_eq!(nav.page_count(), 1);
    assert_eq!(nav.current_page().unwrap().name, "only");
}

#[test]
fn test_multi_page_app_empty() {
    let app = MultiPageApp::new();

    assert_eq!(app.navigation().page_count(), 0);
    assert_eq!(app.current_page_content(), None);
}

#[test]
fn test_cache_ttl_edge_case() {
    let mut cache = DataCache::new();

    cache.set("key".to_string(), "value".to_string(), Some(0));

    let _ = cache.get("key");
}

#[test]
fn test_default_constants() {
    assert_eq!(DEFAULT_PORT, 8501);
    assert_eq!(DEFAULT_HOST, "127.0.0.1");
    assert_eq!(DEFAULT_APP_NAME, "Platypus App");
}

#[test]
fn test_session_timeout_duration() {
    let duration = session_timeout_duration();
    assert_eq!(duration.as_secs(), DEFAULT_SESSION_TIMEOUT);
}

#[test]
fn test_max_body_size_usize() {
    let size = max_body_size_usize();
    assert_eq!(size, DEFAULT_MAX_BODY_SIZE as usize);
}

#[test]
fn server_test_default_config() {
    let config = ServerConfig::default();
    assert_eq!(config.port, DEFAULT_PORT);
    assert_eq!(config.host, DEFAULT_HOST);
    assert_eq!(config.port, 8501);
    assert_eq!(config.host, "127.0.0.1");
}

#[test]
fn final_features_tests_test_component_property() {
    let prop = ComponentProperty::new("columns", "array")
        .required()
        .with_default("[]")
        .with_description("Table columns");

    assert_eq!(prop.name, "columns");
    assert_eq!(prop.prop_type, "array");
    assert!(prop.required);
}

#[test]
fn components_test_component_property() {
    let prop = ComponentProperty::new("title", "string")
        .required()
        .with_default("\"Default Title\"")
        .with_description("Component title");

    assert_eq!(prop.name, "title");
    assert!(prop.required);
    assert_eq!(prop.default, Some("\"Default Title\"".to_string()));
}

#[test]
fn test_custom_component_creation() {
    let metadata = ComponentMetadata::new("Button", "1.0.0");
    let mut component = CustomComponent::new(metadata);

    component.add_property(ComponentProperty::new("label", "string").required().with_default("\"Click\""));
    component.add_property(ComponentProperty::new("onClick", "function"));

    assert_eq!(component.properties().len(), 2);
    assert!(component.validate().is_ok());
}

#[test]
fn test_custom_component_validation() {
    let metadata = ComponentMetadata::new("Input", "1.0.0");
    let mut component = CustomComponent::new(metadata);

    component.add_property(ComponentProperty::new("value", "string").required());

    assert!(component.validate().is_err());
    assert_eq!(component.validate(), Err("Required property 'value' has no default".to_string()));
}

#[test]
fn final_features_tests_test_component_registry() {
    let mut registry = ComponentRegistry::new();

    let metadata1 = ComponentMetadata::new("Component1", "1.0.0");
    let component1 = CustomComponent::new(metadata1);

    let metadata2 = ComponentMetadata::new("Component2", "1.0.0");
    let component2 = CustomComponent::new(metadata2);

    assert!(registry.register(component1).is_ok());
    assert!(registry.register(component2).is_ok());
    assert_eq!(registry.count(), 2);
}

#[test]
fn test_component_registry_retrieval() {
    let mut registry = ComponentRegistry::new();

    let metadata = ComponentMetadata::new("MyComponent", "1.0.0");
    let component = CustomComponent::new(metadata);

    registry.register(component).unwrap();

    assert!(registry.get("MyComponent").is_some());
    assert!(registry.get("NonExistent").is_none());
}

#[test]
fn test_component_registry_list() {
    let mut registry = ComponentRegistry::new();

    for i in 0..3 {
        let metadata = ComponentMetadata::new(format!("Component{}", i).as_str(), "1.0.0");
        let component = CustomComponent::new(metadata);
        registry.register(component).unwrap();
    }

    let list = registry.list();
    assert_eq!(list.len(), 3);
}

#[test]
fn test_component_registry_unregister() {
    let mut registry = ComponentRegistry::new();

    let metadata = ComponentMetadata::new("TempComponent", "1.0.0");
    let component = CustomComponent::new(metadata);

    registry.register(component).unwrap();
    assert_eq!(registry.count(), 1);

    registry.unregister("TempComponent");
    assert_eq!(registry.count(), 0);
}

#[test]
fn registry_refuses_invalid_component() {
    let mut registry = ComponentRegistry::new();
    let mut component = CustomComponent::new(ComponentMetadata::new("Bad", "1.0.0"));
    component.add_property(ComponentProperty::new("value", "string").required());
    assert!(registry.register(component).is_err());
    assert_eq!(registry.count(), 0);
}

#[test]
fn final_features_tests_test_component_instance() {
    let mut instance = ComponentInstance::new("DataTable");

    instance.set_prop("columns", r#"["Name", "Age", "Email"]"#);
    instance.set_prop("rows", r#"[["John", 30, "john@example.com"]]"#);

    assert_eq!(instance.component_name(), "DataTable");
    assert!(instance.get_prop("columns").is_some());
}

#[test]
fn components_test_component_instance() {
    let mut instance = ComponentInstance::new("MyComponent");
    instance.set_prop("title", "\"Hello\"");
    assert_eq!(instance.component_name(), "MyComponent");
    assert_eq!(instance.get_prop("title"), Some(&"\"Hello\"".to_string()));
    assert_eq!(instance.props().len(), 1);
}

#[test]
fn test_component_with_secrets() {
    let mut manager = SecretsManager::new();
    manager.set_secret("api_endpoint", "https://api.example.com");

    let metadata = ComponentMetadata::new("APIClient", "1.0.0");
    let component = CustomComponent::new(metadata);

    assert!(manager.has_secret("api_endpoint"));
    assert_eq!(component.metadata().name, "APIClient");
}

#[test]
fn test_component_registry_with_secrets() {
    let mut registry = ComponentRegistry::new();
    let mut secrets = SecretsManager::new();

    let metadata = ComponentMetadata::new("SecureForm", "1.0.0");
    let component = CustomComponent::new(metadata);
    registry.register(component).unwrap();

    secrets.set_secret("form_encryption_key", "secret_key_123");

    assert_eq!(registry.count(), 1);
    assert!(secrets.has_secret("form_encryption_key"));
}

#[test]
fn test_multiple_components_and_secrets() {
    let mut registry = ComponentRegistry::new();
    let mut secrets = SecretsManager::new();

    for i in 0..5 {
        let metadata = ComponentMetadata::new(format!("Component{}", i).as_str(), "1.0.0");
        let component = CustomComponent::new(metadata);
        registry.register(component).unwrap();
    }

    for i in 0..5 {
        secrets.set_secret(format!("secret_{}", i).as_str(), format!("value_{}", i).as_str());
    }

    assert_eq!(registry.count(), 5);
    assert_eq!(secrets.count(), 5);
}

#[test]
fn test_component_registry_performance() {
    let mut registry = ComponentRegistry::new();

    let start = std::time::Instant::now();

    for i in 0..100 {
        let metadata = ComponentMetadata::new(format!("Component{}", i).as_str(), "1.0.0");
        let component = CustomComponent::new(metadata);
        registry.register(component).unwrap();
    }

    let duration = start.elapsed();
    assert!(duration.as_millis() < 100);
}

#[test]
fn test_empty_component_registry() {
    let registry = ComponentRegistry::new();

    assert_eq!(registry.count(), 0);
    assert_eq!(registry.list().len(), 0);
    assert!(registry.get("NonExistent").is_none());
}
