//! Generation of Caliptra authorization manifests: the manifest model and
//! its byte layout, the signing plans of the three kinds of generation (as
//! sessions that ask their caller for each digest and signature), the
//! reading of image metadata configurations, and the handling of what an
//! external signing helper is given and returns.

pub mod config;
pub mod der;
pub mod error;
pub mod generator;
pub mod helper;
pub mod hexcodec;
pub mod image;
pub mod keyfiles;
pub mod layout;
pub mod manifest;
pub mod metadata;
pub mod session;
pub mod words;

pub use config::{
    AspeedAuthManifestGeneratorConfig, AspeedAuthManifestSignHelper, AuthManifestECCKeyPair,
    AuthManifestGeneratorConfig, AuthManifestGeneratorEccKeyConfig,
    AuthManifestGeneratorEccKeyOptionalConfig, AuthManifestGeneratorKeyConfig,
    AuthManifestGeneratorLmsKeyConfig, AuthManifestGeneratorLmsKeyOptionalConfig,
    AuthManifestLmsKeyPair,
};
pub use error::AuthManifestError;
pub use generator::AuthManifestGenerator;
pub use helper::SignaturePair;
pub use metadata::{image_metadata_config_from_file, ImageMetadataConfigFromFile};
pub use session::{NextStep, Reply, Request, SigSlot, SigningSession};
