use knock::cache::Cache;
use knock::context::ShellContext;
use knock::mode::RequestMode;
use knock::orchestrator::{PreparedRequest, RequestOrchestrator};
use knock::provider::{ProviderConfig, ProviderError, ProviderKind};

fn orchestrator_with(cache: Cache) -> RequestOrchestrator {
    let config = ProviderConfig::new(
        ProviderKind::OpenAi,
        "gpt-5.1".to_string(),
        String::new(),
        None,
    );
    let context = ShellContext::new(
        "macos".to_string(),
        "zsh".to_string(),
        "/home/user".to_string(),
    );
    RequestOrchestrator::new(cache, config, context)
}

#[test]
fn first_call_misses_then_replays_without_the_provider() {
    let mut orch = orchestrator_with(Cache::open_memory());
    let mut provider_calls: u32 = 0;

    let answer = match orch.prepare("find large files", RequestMode::Standard) {
        PreparedRequest::CacheHit { .. } => panic!("the first call must miss"),
        PreparedRequest::ProviderCall {
            key,
            instructions,
            prompt,
            max_tokens,
        } => {
            assert_eq!(max_tokens, 256);
            assert!(prompt.ends_with("<request>find large files</request>"));
            assert!(!instructions.is_empty());
            provider_calls += 1;
            orch.complete(key, Ok("find . -type f -size +100M".to_string()))
                .unwrap()
        }
    };
    assert_eq!(answer, "find . -type f -size +100M");
    assert_eq!(provider_calls, 1);

    match orch.prepare("find large files", RequestMode::Standard) {
        PreparedRequest::CacheHit { text } => {
            assert_eq!(text, "find . -type f -size +100M");
        }
        PreparedRequest::ProviderCall { .. } => panic!("the second call must hit the cache"),
    }
    assert_eq!(provider_calls, 1);
}

#[test]
fn the_prepared_key_matches_generate_key() {
    let orch = orchestrator_with(Cache::open_memory());
    match orch.prepare("find large files", RequestMode::Standard) {
        PreparedRequest::ProviderCall { key, .. } => {
            assert_eq!(
                key,
                Cache::generate_key("find large files", "macos", "zsh", "standard")
            );
            assert_eq!(key, "3b40bbb0ff76928e");
        }
        PreparedRequest::CacheHit { .. } => panic!("a fresh cache cannot hit"),
    }
}

#[test]
fn a_provider_failure_is_terminal_and_writes_nothing() {
    let mut orch = orchestrator_with(Cache::open_memory());
    let key = match orch.prepare("list files", RequestMode::Standard) {
        PreparedRequest::ProviderCall { key, .. } => key,
        PreparedRequest::CacheHit { .. } => panic!("a fresh cache cannot hit"),
    };
    let outcome = orch.complete(key, Err(ProviderError::EmptyResponse));
    assert!(matches!(outcome, Err(ProviderError::EmptyResponse)));

    match orch.prepare("list files", RequestMode::Standard) {
        PreparedRequest::ProviderCall { .. } => {}
        PreparedRequest::CacheHit { .. } => panic!("a failure must not be cached"),
    }
}

#[test]
fn different_modes_do_not_share_cache_entries() {
    let mut orch = orchestrator_with(Cache::open_memory());
    let key = match orch.prepare("list files", RequestMode::Standard) {
        PreparedRequest::ProviderCall { key, .. } => key,
        PreparedRequest::CacheHit { .. } => panic!("a fresh cache cannot hit"),
    };
    orch.complete(key, Ok("ls".to_string())).unwrap();

    match orch.prepare("list files", RequestMode::Verbose) {
        PreparedRequest::ProviderCall { max_tokens, prompt, .. } => {
            assert_eq!(max_tokens, 512);
            assert!(prompt.ends_with(" [verbose]</request>"));
        }
        PreparedRequest::CacheHit { .. } => panic!("the verbose request has its own key"),
    }
}

#[test]
fn replay_works_over_an_on_disk_store_too() {
    let mut orch = orchestrator_with(Cache::open_temporary());
    let key = match orch.prepare("show disk usage", RequestMode::Standard) {
        PreparedRequest::ProviderCall { key, .. } => key,
        PreparedRequest::CacheHit { .. } => panic!("a fresh store cannot hit"),
    };
    orch.complete(key, Ok("df -h".to_string())).unwrap();
    match orch.prepare("show disk usage", RequestMode::Standard) {
        PreparedRequest::CacheHit { text } => assert_eq!(text, "df -h"),
        PreparedRequest::ProviderCall { .. } => panic!("the answer was cached"),
    }
}

#[test]
fn explain_mode_follows_the_same_pipeline() {
    let mut orch = orchestrator_with(Cache::open_memory());
    let answer = match orch.prepare("tar -czf a.tar.gz dir", RequestMode::Explain) {
        PreparedRequest::CacheHit { .. } => panic!("the first call must miss"),
        PreparedRequest::ProviderCall {
            key,
            instructions,
            prompt,
            max_tokens,
        } => {
            assert_eq!(max_tokens, 512);
            assert!(instructions.contains("Invalid command."));
            assert!(prompt.ends_with("<request>tar -czf a.tar.gz dir</request>"));
            orch.complete(key, Ok("Creates a gzip-compressed archive.".to_string()))
                .unwrap()
        }
    };
    assert_eq!(answer, "Creates a gzip-compressed archive.");
    match orch.prepare("tar -czf a.tar.gz dir", RequestMode::Explain) {
        PreparedRequest::CacheHit { text } => {
            assert_eq!(text, "Creates a gzip-compressed archive.")
        }
        PreparedRequest::ProviderCall { .. } => panic!("the explanation was cached"),
    }
}
