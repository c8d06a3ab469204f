//! The config store's own logic: the fixed configuration path per platform,
//! the default single-line configuration written on first run, and the
//! decision taken after the file has been read (or found absent). The
//! reads and writes themselves are performed by the application.

use vstd::prelude::*;
use vstd::string::*;

use crate::parser::{
    http_prefix, https_prefix, lemma_wellformed_line_parses, normalize_url, parse_spec,
    src_decl_of, starts_with_seq,
};
use crate::Platform;

verus! {

/// The text of the configuration that the store synthesizes when the file
/// is absent.
pub open spec fn default_config_text() -> Seq<char> {
    "src \"80.51.80.42:9763/sources.json\";"@
}

/// The one URL that the default configuration declares.
pub open spec fn default_source_url() -> Seq<char> {
    "http://80.51.80.42:9763/sources.json"@
}

/// The fixed, platform-specific path of the source-list configuration file.
pub open spec fn config_path_spec(platform: Platform) -> Seq<char> {
    match platform {
        Platform::Windows => "C:\\Program Files\\TUPM-Apps\\config\\sourcelist.conf"@,
        Platform::Posix => "/etc/tupm/sourcelist.conf"@,
    }
}

/// The path of the configuration file; one constant per platform, not
/// user-overridable.
pub fn get_config_path(platform: Platform) -> (r: String)
    ensures
        r@ == config_path_spec(platform),
{
    match platform {
        Platform::Windows => String::from_str("C:\\Program Files\\TUPM-Apps\\config\\sourcelist.conf"),
        Platform::Posix => String::from_str("/etc/tupm/sourcelist.conf"),
    }
}

/// The default single-line configuration.
pub fn default_config() -> (r: String)
    ensures
        r@ == default_config_text(),
{
    String::from_str("src \"80.51.80.42:9763/sources.json\";")
}

/// What the config store decides once the file has been read: an existing
/// text is used as it stands; an absent file is healed by writing the
/// default, which then serves as the text. `write_default` says whether the
/// application must create the file (and any missing parent directories).
pub struct ConfigPlan {
    pub text: String,
    pub write_default: bool,
}

pub fn load_or_init_plan(read: Option<String>) -> (r: ConfigPlan)
    ensures
        match read {
            Some(t) => r.text == t && !r.write_default,
            None => r.text@ == default_config_text() && r.write_default,
        },
{
    match read {
        Some(t) => ConfigPlan { text: t, write_default: false },
        None => ConfigPlan { text: default_config(), write_default: true },
    }
}

/// Parsing the text produced by the store's default initialization always
/// yields the one-element source list holding the default URL. A second
/// invocation of the store reads back exactly what the first wrote, so
/// every run parses this same text.
pub proof fn lemma_default_config_parses()
    ensures
        parse_spec(default_config_text()) == seq![default_source_url()],
{
    reveal_strlit("src \"80.51.80.42:9763/sources.json\";");
    reveal_strlit("80.51.80.42:9763/sources.json");
    reveal_strlit("http://80.51.80.42:9763/sources.json");
    let x = "80.51.80.42:9763/sources.json"@;
    assert(x.len() == 29);
    assert(forall|j: int| 0 <= j < 29 ==> x[j] != '\n');
    assert(default_config_text() =~= src_decl_of(x));
    lemma_wellformed_line_parses(x);
    assert(!starts_with_seq(x, http_prefix())) by {
        if starts_with_seq(x, http_prefix()) {
            assert(x[4] == x.take(7)[4]);
        }
    }
    assert(!starts_with_seq(x, https_prefix())) by {
        if starts_with_seq(x, https_prefix()) {
            assert(x[4] == x.take(8)[4]);
        }
    }
    assert(normalize_url(x) == http_prefix() + x);
    assert(http_prefix() + x =~= default_source_url());
}

} // verus!
