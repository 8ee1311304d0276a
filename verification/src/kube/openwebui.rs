//! The Open WebUI resource.
use vstd::prelude::*;

verus! {

/// The name of the Open WebUI resource kind.
pub const OWUI: &'static str = "owui";

/// The body of an Open WebUI resource.
#[derive(Debug)]
pub struct OpenWebUI {
    pub replica: u8,
    pub retain_pvc: bool,
    pub service_port: u16,
    pub image: Image,
    pub persistence: Persistence,
    pub env: Vec<Env>,
    pub image_pull_secrets: Option<Vec<ImagePullSecret>>,
}

/// A secret for pulling an image.
#[derive(Debug)]
pub struct ImagePullSecret {
    pub name: String,
}

/// The image Open WebUI runs.
#[derive(Debug)]
pub struct Image {
    pub registry: String,
    pub repository: String,
    pub tag: String,
    pub pull_policy: String,
}

/// The storage of Open WebUI.
#[derive(Debug)]
pub struct Persistence {
    pub size: String,
    pub storage_class: String,
    pub restore_snapshot: Option<String>,
}

/// An environment variable of Open WebUI.
#[derive(Debug)]
pub struct Env {
    pub name: String,
    pub value: String,
}

} // verus!
