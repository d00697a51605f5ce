//! The plugin object handed to the validator.
use vstd::prelude::*;
use crate::config::PluginError;

verus! {

/// The plugin.
pub struct GeyserPluginVertex {
    postgres_client: String,
}

impl GeyserPluginVertex {
    /// The description of the database client this plugin uses.
    pub closed spec fn spec_postgres_client(&self) -> Seq<char> {
        self.postgres_client@
    }

    /// A fresh plugin, with no database client described yet.
    pub fn new() -> (p: Self)
        ensures
            p.spec_postgres_client() == Seq::<char>::empty(),
    {
        GeyserPluginVertex { postgres_client: String::new() }
    }

    /// The name under which the plugin registers.
    pub fn name(&self) -> (n: &'static str)
        ensures
            n@ == "GeyserPluginVertex"@,
    {
        "GeyserPluginVertex"
    }

    /// The description of the database client this plugin uses.
    pub fn postgres_client(&self) -> (s: &str)
        ensures
            s@ == self.spec_postgres_client(),
    {
        self.postgres_client.as_str()
    }
}

impl Default for GeyserPluginVertex {
    fn default() -> (p: Self)
        ensures
            p.spec_postgres_client() == Seq::<char>::empty(),
    {
        GeyserPluginVertex::new()
    }
}

/// The message when the configuration file is not valid JSON of the expected
/// shape, the parse error given by its `{:?}` rendering.
pub open spec fn config_format_msg(error_debug: Seq<char>) -> Seq<char> {
    "The config file is not in the JSON format expected: "@ + error_debug
}

/// The message for a badly formatted configuration file ends with the parse
/// error's rendering.
pub proof fn lemma_config_format_msg_carries_error(error_debug: Seq<char>)
    ensures
        ({
            let m = config_format_msg(error_debug);
            m.subrange(m.len() - error_debug.len(), m.len() as int) == error_debug
        }),
{
    let m = config_format_msg(error_debug);
    assert(m.subrange(m.len() - error_debug.len(), m.len() as int) =~= error_debug);
}

/// The error reported when loading the plugin finds the configuration file
/// not in the expected JSON format.
pub fn config_format_error(error_debug: &str) -> (e: PluginError)
    ensures
        e matches PluginError::ConfigFileReadError { msg } && msg@ == config_format_msg(
            error_debug@,
        ),
{
    let mut msg = String::from_str("The config file is not in the JSON format expected: ");
    msg.append(error_debug);
    PluginError::ConfigFileReadError { msg }
}

} // verus!
