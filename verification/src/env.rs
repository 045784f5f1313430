//! Fixed names of the harness and the paths it derives from the project
//! root. The project root itself is found by the binary at build time and
//! handed in; the path composition is kept here.

use vstd::prelude::*;

verus! {

use vstd::string::StringExecFns;

/// The harness's fixed names and derived paths.
pub struct Env {}

impl Env {
    /// The registry that holds the application images.
    pub fn container_registry_url() -> (r: &'static str)
        ensures
            r@ == "sc2cr.io/applications"@,
    {
        "sc2cr.io/applications"
    }

    /// The image of the Knative sidecar container.
    pub fn knative_sidecar_image_name() -> (r: &'static str)
        ensures
            r@ == "sc2cr.io/system/knative-sidecar"@,
    {
        "sc2cr.io/system/knative-sidecar"
    }

    /// The Kubernetes namespace the services are deployed in.
    pub fn k8s_namespace() -> (r: &'static str)
        ensures
            r@ == "sc2"@,
    {
        "sc2"
    }

    /// The prefix the harness logs under.
    pub fn sys_name() -> (r: &'static str)
        ensures
            r@ == "sc2-exp"@,
    {
        "sc2-exp"
    }

    /// Where results are kept, under the project root.
    pub fn results_root(proj_root: &str) -> (r: String)
        ensures
            r@ == proj_root@ + "/results"@,
    {
        let mut path = proj_root.to_owned();
        path.append("/results");
        path
    }

    /// Where the deployable applications live, beside the project root.
    pub fn apps_root(proj_root: &str) -> (r: String)
        ensures
            r@ == proj_root@ + "/../applications"@,
    {
        let mut path = proj_root.to_owned();
        path.append("/../applications");
        path
    }
}

} // verus!
