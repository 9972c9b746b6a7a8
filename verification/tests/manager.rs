use lsp_mcp_rs::config::{Config, ServerConfig};
use lsp_mcp_rs::error::ClientError;
use lsp_mcp_rs::manager::LspManager;
use std::cell::RefCell;

fn server(command: &str, extensions: &[&str]) -> ServerConfig {
    ServerConfig {
        command: command.to_string(),
        args: vec![],
        extensions: extensions.iter().map(|e| e.to_string()).collect(),
        root_patterns: vec![],
        timeout_ms: 1000,
    }
}

fn pool() -> LspManager<String> {
    LspManager::new(Config {
        servers: vec![
            ("rust".to_string(), server("rust-analyzer", &[".rs"])),
            ("web".to_string(), server("tsserver", &[".ts", ".tsx", ".js"])),
        ],
    })
}

#[test]
fn file_is_routed_by_its_extension() {
    let pool = pool();
    assert_eq!(pool.server_for_file("/proj/src/main.rs").unwrap().0, "rust");
    assert_eq!(pool.server_for_file("/proj/app.TSX").unwrap().0, "web");
    assert_eq!(pool.server_for_file("/proj/app.js").unwrap().1.command, "tsserver");
}

#[test]
fn file_without_known_extension_has_no_backend() {
    let pool = pool();
    assert!(pool.server_for_file("file.unknownext").is_none());
    assert!(pool.server_for_file("/proj/Makefile").is_none());
    assert!(pool.server_for_file("/proj/.rs").is_none());
    assert!(pool.server_for_file("").is_none());
}

#[test]
fn unknown_extension_fails_without_spawning() {
    let mut pool = pool();
    let spawned = RefCell::new(0);
    let out = pool.get_client("file.unknownext", |_: &str, _: &ServerConfig| {
        *spawned.borrow_mut() += 1;
        Some("client".to_string())
    });
    assert!(matches!(out, Err(ClientError::NoBackendConfigured(path)) if path == "file.unknownext"));
    assert_eq!(*spawned.borrow(), 0);
    assert_eq!(pool.len(), 0);
}

#[test]
fn first_request_spawns_the_backend() {
    let mut pool = pool();
    let seen = RefCell::new(Vec::new());
    let index = pool
        .get_client("/proj/a.rs", |name: &str, server: &ServerConfig| {
            seen.borrow_mut().push((name.to_string(), server.command.clone()));
            Some(format!("client of {}", name))
        })
        .unwrap();
    assert_eq!(index, 0);
    assert_eq!(pool.len(), 1);
    assert_eq!(pool.client(index).unwrap(), "client of rust");
    assert_eq!(pool.name(index), Some("rust"));
    assert_eq!(seen.into_inner(), vec![("rust".to_string(), "rust-analyzer".to_string())]);
}

#[test]
fn many_requests_for_one_backend_spawn_it_once() {
    let mut pool = pool();
    let spawned = RefCell::new(0);
    let mut indexes = Vec::new();
    for n in 0..20 {
        let path = format!("/proj/file{}.rs", n);
        let index = pool
            .get_client(&path, |_: &str, _: &ServerConfig| {
                *spawned.borrow_mut() += 1;
                Some(format!("client {}", *spawned.borrow()))
            })
            .unwrap();
        indexes.push(index);
    }
    assert_eq!(*spawned.borrow(), 1);
    assert!(indexes.iter().all(|i| *i == 0));
    assert_eq!(pool.len(), 1);
    assert_eq!(pool.client(0).unwrap(), "client 1");
}

#[test]
fn each_backend_gets_its_own_client() {
    let mut pool = pool();
    let make = |name: &str, _: &ServerConfig| Some(name.to_string());
    assert_eq!(pool.get_client("/p/a.ts", make).unwrap(), 0);
    assert_eq!(pool.get_client("/p/a.rs", make).unwrap(), 1);
    assert_eq!(pool.get_client("/p/b.js", make).unwrap(), 0);
    assert_eq!(pool.get_client("/p/b.RS", make).unwrap(), 1);
    assert_eq!(pool.len(), 2);
    assert_eq!(pool.client(0).unwrap(), "web");
    assert_eq!(pool.client(1).unwrap(), "rust");
    assert!(pool.client(2).is_none());
    assert!(pool.name(2).is_none());
}

#[test]
fn failed_launch_is_not_cached() {
    let mut pool = pool();
    let out = pool.get_client("/p/a.rs", |_: &str, _: &ServerConfig| None);
    assert!(matches!(out, Err(ClientError::SpawnFailed)));
    assert_eq!(pool.len(), 0);
    let index = pool.get_client("/p/a.rs", |_: &str, _: &ServerConfig| Some("late".to_string()));
    assert_eq!(index.unwrap(), 0);
    assert_eq!(pool.client(0).unwrap(), "late");
}

#[test]
fn pool_keeps_its_configuration() {
    let pool = pool();
    assert_eq!(pool.config().servers.len(), 2);
    assert_eq!(pool.config().servers[1].0, "web");
}
