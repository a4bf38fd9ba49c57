use std::sync::Arc;
use zed::config_channel::config_channel;
use zed::AppState;

trait Fs {
    fn name(&self) -> &str;
}

struct MemFs;

impl Fs for MemFs {
    fn name(&self) -> &str {
        "mem"
    }
}

#[test]
fn app_state_shares_one_writer_with_its_readers() {
    let (writer, reader) = config_channel(String::from("v1"));
    let state: AppState<String, Vec<String>, u8, (), dyn Fs> = AppState {
        settings_tx: Arc::new(writer),
        settings: reader,
        languages: Arc::new(vec!["Rust".to_string()]),
        themes: Arc::new(0),
        rpc: Arc::new(()),
        fs: Arc::new(MemFs),
    };
    let consumer = state.settings.subscribe();
    state.settings_tx.update(String::from("v2"));
    assert_eq!(consumer.current(), "v2");
    assert_eq!(state.settings.current(), "v2");
    assert_eq!(state.fs.name(), "mem");
    assert_eq!(state.languages.len(), 1);
}
