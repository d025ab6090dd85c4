//! Tests of the builder core: accumulation of identifier and name, and
//! the id-defaulting rule.

use autogen_rs::agent::builder::AgentConfig;
use autogen_rs::agent::id::AgentId;

#[test]
fn test_config_starts_empty() {
    let config = AgentConfig::default();
    assert!(config.id.is_none());
    assert!(config.name.is_none());
}

#[test]
fn test_config_accumulates() {
    let config = AgentConfig::default().with_name("assistant".to_string());
    assert_eq!(config.name.as_deref(), Some("assistant"));
    assert!(config.id.is_none());

    let config = config.with_id(AgentId(7));
    assert_eq!(config.id, Some(AgentId(7)));
    assert_eq!(config.name.as_deref(), Some("assistant"));
}

#[test]
fn test_config_caller_id_wins() {
    let config = AgentConfig::default().with_id(AgentId(7));
    assert_eq!(config.resolve_id(), AgentId(7));
}

#[test]
fn test_config_draws_fresh_id_when_unset() {
    let config = AgentConfig::default();
    let id = config.resolve_id();
    assert_eq!((id.0 >> 76) & 0xf, 4);
    assert_eq!((id.0 >> 62) & 0x3, 2);
}

#[test]
fn test_config_last_id_wins() {
    let config = AgentConfig::default()
        .with_id(AgentId(1))
        .with_id(AgentId(2));
    assert_eq!(config.resolve_id(), AgentId(2));
}
