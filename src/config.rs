use vstd::prelude::*;

verus! {

/// The name of the scanner configuration file, at the repository root.
pub const CONFIG_FILE: &'static str = ".gitleaks.toml";

/// The rule placed before the downloaded default rules.
pub const CONFIG_HEADER: &'static str = r#"[[rules]]
regex = "API[_-]?KEY"
tags = ["api-key", "token"]

"#;

/// The configuration file's content: the fixed header followed by the
/// downloaded default configuration.
pub fn config_document(default_config: &str) -> (r: String)
    ensures
        r@ == CONFIG_HEADER@ + default_config@,
{
    String::from_str(CONFIG_HEADER).concat(default_config)
}

} // verus!
