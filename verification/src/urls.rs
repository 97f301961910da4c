//! Where the published files of a network are fetched from, and where its nodes report.
use vstd::prelude::*;

use crate::constants::NETWORK_TELEMETRY_URL;

verus! {

/// The host that serves the published genesis, records and config files.
pub const ARTIFACT_HOST: &'static str = "https://unc-s3.jongun2038.win/";

/// The compressed genesis file of a network.
pub const GENESIS_ARTIFACT: &'static str = "genesis.json.xz";

/// The compressed records file of a network.
pub const RECORDS_ARTIFACT: &'static str = "records.json.xz";

/// The compressed config file of a network.
pub const CONFIG_ARTIFACT: &'static str = "config.json.xz";

/// The part of the telemetry endpoint before the chain id.
pub const TELEMETRY_PREFIX: &'static str = "https://explorer.";

/// The part of the telemetry endpoint after the chain id.
pub const TELEMETRY_SUFFIX: &'static str = ".utnet.org/api/nodes";

/// The address, inside the artifact host, of `file` for the chain `chain_id`.
pub open spec fn artifact_url(chain_id: Seq<char>, file: Seq<char>) -> Seq<char> {
    ARTIFACT_HOST@ + chain_id + "/"@ + file
}

/// The telemetry endpoint of the network `chain_id`.
pub open spec fn telemetry_url(chain_id: Seq<char>) -> Seq<char> {
    TELEMETRY_PREFIX@ + chain_id + TELEMETRY_SUFFIX@
}

fn artifact_url_exec(chain_id: &str, file: &str) -> (url: String)
    ensures
        url@ == artifact_url(chain_id@, file@),
{
    let mut url = String::from_str(ARTIFACT_HOST);
    url.append(chain_id);
    url.append("/");
    url.append(file);
    url
}

/// The address of the compressed genesis file of `chain_id`.
pub fn get_genesis_url(chain_id: &str) -> (url: String)
    ensures
        url@ == artifact_url(chain_id@, GENESIS_ARTIFACT@),
{
    artifact_url_exec(chain_id, GENESIS_ARTIFACT)
}

/// The address of the compressed records file of `chain_id`.
pub fn get_records_url(chain_id: &str) -> (url: String)
    ensures
        url@ == artifact_url(chain_id@, RECORDS_ARTIFACT@),
{
    artifact_url_exec(chain_id, RECORDS_ARTIFACT)
}

/// The address of the compressed config file of `chain_id`.
pub fn get_config_url(chain_id: &str) -> (url: String)
    ensures
        url@ == artifact_url(chain_id@, CONFIG_ARTIFACT@),
{
    artifact_url_exec(chain_id, CONFIG_ARTIFACT)
}

/// The telemetry endpoint of the public network `chain_id`: the endpoint template with
/// its placeholder replaced by the chain id.
pub fn network_telemetry_url(chain_id: &str) -> (url: String)
    ensures
        url@ == telemetry_url(chain_id@),
{
    let mut url = String::from_str(TELEMETRY_PREFIX);
    url.append(chain_id);
    url.append(TELEMETRY_SUFFIX);
    url
}

/// The endpoint template is the prefix, the placeholder `{}` and the suffix, so the
/// telemetry endpoint of a chain is the template with the chain id in place of `{}`.
pub proof fn law_telemetry_url_fills_template()
    ensures
        NETWORK_TELEMETRY_URL@ == TELEMETRY_PREFIX@ + "{}"@ + TELEMETRY_SUFFIX@,
{
    reveal_strlit("https://explorer.{}.utnet.org/api/nodes");
    reveal_strlit("https://explorer.");
    reveal_strlit("{}");
    reveal_strlit(".utnet.org/api/nodes");
    assert(NETWORK_TELEMETRY_URL@ =~= TELEMETRY_PREFIX@ + "{}"@ + TELEMETRY_SUFFIX@);
}

/// Two chains share the address of a published file only if they are the same chain.
pub proof fn law_artifact_url_injective(a: Seq<char>, b: Seq<char>, file: Seq<char>)
    requires
        artifact_url(a, file) == artifact_url(b, file),
    ensures
        a == b,
{
    reveal_strlit("/");
    let h = ARTIFACT_HOST@.len() as int;
    assert(artifact_url(a, file).len() == h + a.len() + 1 + file.len());
    assert(a.len() == b.len());
    assert forall|i: int| 0 <= i < a.len() implies a[i] == b[i] by {
        assert(artifact_url(a, file)[h + i] == a[i]);
        assert(artifact_url(b, file)[h + i] == b[i]);
    }
    assert(a =~= b);
}

/// The genesis, records and config files of one chain have three different addresses.
pub proof fn law_artifact_urls_distinct(chain_id: Seq<char>)
    ensures
        artifact_url(chain_id, GENESIS_ARTIFACT@) != artifact_url(chain_id, RECORDS_ARTIFACT@),
        artifact_url(chain_id, GENESIS_ARTIFACT@) != artifact_url(chain_id, CONFIG_ARTIFACT@),
        artifact_url(chain_id, RECORDS_ARTIFACT@) != artifact_url(chain_id, CONFIG_ARTIFACT@),
{
    reveal_strlit("genesis.json.xz");
    reveal_strlit("records.json.xz");
    reveal_strlit("config.json.xz");
    let p = ARTIFACT_HOST@ + chain_id + "/"@;
    let n = p.len() as int;
    assert(artifact_url(chain_id, GENESIS_ARTIFACT@)[n] == 'g');
    assert(artifact_url(chain_id, RECORDS_ARTIFACT@)[n] == 'r');
    assert(artifact_url(chain_id, CONFIG_ARTIFACT@)[n] == 'c');
}

} // verus!
