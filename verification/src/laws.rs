//! The properties the resolution logic promises beyond the individual
//! contracts: stability of resolution for a fixed environment, and the
//! fixed rename rule between the legacy and the current home directory.

use crate::error::DirError;
use crate::path_util::spec_join;
use crate::resolve::{
    spec_app_config_dir, spec_app_data_dir, spec_app_home_dir, spec_app_name,
    spec_app_resources_dir, spec_cache_dir, spec_old_app_home_dir, spec_previous_app_name,
    spec_single_instance_placeholder, AppEnv,
};
use vstd::prelude::*;

verus! {

/// For a fixed platform and portable-mode setting — that is, for one
/// environment value, assembled once per process run — every base directory
/// resolves to the same location on every call: resolution is a pure
/// function of the environment.
pub proof fn lemma_resolution_stable(e1: AppEnv, e2: AppEnv)
    requires
        e1 == e2,
    ensures
        spec_app_config_dir(e1) == spec_app_config_dir(e2),
        spec_app_data_dir(e1) == spec_app_data_dir(e2),
        spec_app_home_dir(e1) == spec_app_home_dir(e2),
        spec_old_app_home_dir(e1) == spec_old_app_home_dir(e2),
        spec_cache_dir(e1) == spec_cache_dir(e2),
        spec_app_resources_dir(e1) == spec_app_resources_dir(e2),
        spec_single_instance_placeholder(e1) == spec_single_instance_placeholder(e2),
{
}

/// The legacy (previous-install) home directory differs from the current
/// one by the fixed application-name rename alone: whenever the legacy path
/// resolves, so does the current one, both under one common base directory,
/// the legacy path under the previous application name and the current path
/// under the current name. The one exception is a regular (non-portable)
/// Windows install whose directory is recorded in the registry: there the
/// current path is whatever the registry holds.
pub proof fn lemma_legacy_rename_rule(env: AppEnv)
    requires
        !(env.platform is Windows && !env.portable && env.registry_app_dir is Some),
    ensures
        spec_old_app_home_dir(env) is Ok <==> spec_app_home_dir(env) is Ok,
        spec_old_app_home_dir(env) matches Ok(o) ==> (spec_app_home_dir(env) matches Ok(n)
            && exists|base: Seq<char>|
            o == #[trigger] spec_join(base, spec_previous_app_name()) && n == spec_join(
                base,
                spec_app_name(),
            )),
{
    if env.platform is Windows && env.portable {
        match env.install_dir {
            Some(d) => {
                let base = spec_join(d@, ".config"@);
                assert(spec_old_app_home_dir(env) == Ok::<Seq<char>, DirError>(
                    spec_join(base, spec_previous_app_name()),
                ));
                assert(spec_app_home_dir(env) == Ok::<Seq<char>, DirError>(
                    spec_join(base, spec_app_name()),
                ));
            },
            None => {},
        }
    } else {
        match env.home_dir {
            Some(h) => {
                let base = spec_join(h@, ".config"@);
                assert(spec_old_app_home_dir(env) == Ok::<Seq<char>, DirError>(
                    spec_join(base, spec_previous_app_name()),
                ));
                assert(spec_app_home_dir(env) == Ok::<Seq<char>, DirError>(
                    spec_join(base, spec_app_name()),
                ));
            },
            None => {},
        }
    }
}

} // verus!
