//! Which key files a configuration asks to load for a party's key pairs.
use vstd::prelude::*;

verus! {

/// Key file names of one signer as a configuration file gives them; each
/// key is optional.
#[derive(Debug)]
pub struct AspeedAuthManifestKeyConfigFromFile {
    pub ecc_pub_key: Option<String>,
    pub ecc_priv_key: Option<String>,
    pub lms_pub_key: Option<String>,
    pub lms_priv_key: Option<String>,
}

/// The four key files of a party's firmware and manifest key pairs.
#[derive(Debug)]
pub struct KeyPairFiles {
    pub fw_pub_key: String,
    pub fw_priv_key: String,
    pub man_pub_key: String,
    pub man_priv_key: String,
}

fn copy_name(name: &String) -> (r: String)
    ensures
        r@ == name@,
{
    name.clone()
}

/// The ECC key files of a party: given only when both the firmware and the
/// manifest configurations are present and each names both its ECC public
/// and private key; otherwise the party has no ECC key configuration.
pub fn ecc_key_pair_files(
    fw_config: &Option<AspeedAuthManifestKeyConfigFromFile>,
    man_config: &Option<AspeedAuthManifestKeyConfigFromFile>,
) -> (r: Option<KeyPairFiles>)
    ensures
        r is Some <==> {
            &&& fw_config is Some && man_config is Some
            &&& fw_config->0.ecc_pub_key is Some && fw_config->0.ecc_priv_key is Some
            &&& man_config->0.ecc_pub_key is Some && man_config->0.ecc_priv_key is Some
        },
        r matches Some(f) ==> {
            &&& f.fw_pub_key@ == fw_config->0.ecc_pub_key->0@
            &&& f.fw_priv_key@ == fw_config->0.ecc_priv_key->0@
            &&& f.man_pub_key@ == man_config->0.ecc_pub_key->0@
            &&& f.man_priv_key@ == man_config->0.ecc_priv_key->0@
        },
{
    if let (Some(fw), Some(man)) = (fw_config, man_config) {
        if let (Some(a), Some(b), Some(c), Some(d)) = (&fw.ecc_pub_key, &fw.ecc_priv_key, &man.ecc_pub_key, &man.ecc_priv_key) {
            return Some(KeyPairFiles {
                fw_pub_key: copy_name(a),
                fw_priv_key: copy_name(b),
                man_pub_key: copy_name(c),
                man_priv_key: copy_name(d),
            });
        }
    }
    None
}

/// The LMS key files of a party, under the same rule as the ECC ones.
pub fn lms_key_pair_files(
    fw_config: &Option<AspeedAuthManifestKeyConfigFromFile>,
    man_config: &Option<AspeedAuthManifestKeyConfigFromFile>,
) -> (r: Option<KeyPairFiles>)
    ensures
        r is Some <==> {
            &&& fw_config is Some && man_config is Some
            &&& fw_config->0.lms_pub_key is Some && fw_config->0.lms_priv_key is Some
            &&& man_config->0.lms_pub_key is Some && man_config->0.lms_priv_key is Some
        },
        r matches Some(f) ==> {
            &&& f.fw_pub_key@ == fw_config->0.lms_pub_key->0@
            &&& f.fw_priv_key@ == fw_config->0.lms_priv_key->0@
            &&& f.man_pub_key@ == man_config->0.lms_pub_key->0@
            &&& f.man_priv_key@ == man_config->0.lms_priv_key->0@
        },
{
    if let (Some(fw), Some(man)) = (fw_config, man_config) {
        if let (Some(a), Some(b), Some(c), Some(d)) = (&fw.lms_pub_key, &fw.lms_priv_key, &man.lms_pub_key, &man.lms_priv_key) {
            return Some(KeyPairFiles {
                fw_pub_key: copy_name(a),
                fw_priv_key: copy_name(b),
                man_pub_key: copy_name(c),
                man_priv_key: copy_name(d),
            });
        }
    }
    None
}

} // verus!
