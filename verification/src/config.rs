//! The worker's configuration: its parts, their validation, and the URLs the
//! public parameters are fetched from.

use vstd::prelude::*;
use crate::manager::{TaskDifficulty, ProverType, difficulty_name};

verus! {

/// The file, next to the parameters, that lists their checksums.
pub const PARAMS_CHECKSUM_FILENAME: &'static str = "public_params.hash";

/// Where and how the public parameters are fetched.
pub struct PublicParamsConfig {
    /// The root URL of the parameters; the full URL adds the mp2 version.
    pub params_root_url: String,
    pub checksum_expected_local_path: String,
    pub skip_checksum: bool,
    pub dir: String,
    /// When set, the parameters are never written to disk.
    pub skip_store: bool,
    pub preprocessing_params: PreprocessingParams,
    pub query_params: QueryParams,
    pub groth16_assets: Groth16Assets,
}

pub struct PreprocessingParams {
    pub file: String,
}

pub struct QueryParams {
    pub file: String,
}

pub struct Groth16Assets {
    pub circuit_file: String,
    pub r1cs_file: String,
    pub pk_file: String,
}

pub struct WorkerConfig {
    pub instance_type: TaskDifficulty,
    /// Seconds without a processed task after which the worker reports
    /// itself not alive.
    pub liveness_check_interval: u64,
}

/// How the worker reaches the gateway and authenticates. Either a keystore
/// with its password or a private key identifies the worker.
pub struct AvsConfig {
    pub gateway_url: String,
    pub gateway_grpc_url: Option<String>,
    pub max_grpc_message_size_mb: Option<usize>,
    pub issuer: String,
    pub worker_id: String,
    pub lagr_keystore: Option<String>,
    pub lagr_pwd: Option<String>,
    pub lagr_private_key: Option<String>,
}

pub struct PrometheusConfig {
    pub port: u16,
}

/// The whole configuration.
pub struct Config {
    pub worker: WorkerConfig,
    pub avs: AvsConfig,
    pub public_params: PublicParamsConfig,
    pub prometheus: PrometheusConfig,
    /// Where to write the reason the worker stopped, if anywhere.
    pub exit_reason_path: Option<String>,
}

/// A required setting that is missing.
#[derive(Clone, Copy, Debug, PartialEq, Eq, Structural)]
pub enum ConfigError {
    UrlRequired,
    ChecksumPathRequired,
    DirectoryRequired,
    PreprocessingFileRequired,
    QueryFileRequired,
    CircuitFileRequired,
    R1csFileRequired,
    PkFileRequired,
    GatewayUrlRequired,
    IssuerRequired,
    WorkerIdRequired,
    KeystorePathEmpty,
    PasswordEmpty,
    PrivateKeyEmpty,
}

pub open spec fn config_error_message(e: ConfigError) -> Seq<char> {
    match e {
        ConfigError::UrlRequired => "URL is required"@,
        ConfigError::ChecksumPathRequired => "Checksum local path for expected checksum file is required"@,
        ConfigError::DirectoryRequired => "Directory is required"@,
        ConfigError::PreprocessingFileRequired => "Preprocessing file is required"@,
        ConfigError::QueryFileRequired => "Query2 file is required"@,
        ConfigError::CircuitFileRequired => "Circuit URL is required"@,
        ConfigError::R1csFileRequired => "R1CS URL is required"@,
        ConfigError::PkFileRequired => "PK URL is required"@,
        ConfigError::GatewayUrlRequired => "Gateway URL is required"@,
        ConfigError::IssuerRequired => "Issuer is required"@,
        ConfigError::WorkerIdRequired => "Worker ID is required"@,
        ConfigError::KeystorePathEmpty => "Keystore path is empty"@,
        ConfigError::PasswordEmpty => "Password is empty"@,
        ConfigError::PrivateKeyEmpty => "Private key value is empty"@,
    }
}

impl ConfigError {
    /// The message reported for the missing setting.
    pub fn message(&self) -> (r: String)
        ensures
            r@ == config_error_message(*self),
    {
        match self {
            ConfigError::UrlRequired => String::from_str("URL is required"),
            ConfigError::ChecksumPathRequired => String::from_str(
                "Checksum local path for expected checksum file is required",
            ),
            ConfigError::DirectoryRequired => String::from_str("Directory is required"),
            ConfigError::PreprocessingFileRequired => String::from_str("Preprocessing file is required"),
            ConfigError::QueryFileRequired => String::from_str("Query2 file is required"),
            ConfigError::CircuitFileRequired => String::from_str("Circuit URL is required"),
            ConfigError::R1csFileRequired => String::from_str("R1CS URL is required"),
            ConfigError::PkFileRequired => String::from_str("PK URL is required"),
            ConfigError::GatewayUrlRequired => String::from_str("Gateway URL is required"),
            ConfigError::IssuerRequired => String::from_str("Issuer is required"),
            ConfigError::WorkerIdRequired => String::from_str("Worker ID is required"),
            ConfigError::KeystorePathEmpty => String::from_str("Keystore path is empty"),
            ConfigError::PasswordEmpty => String::from_str("Password is empty"),
            ConfigError::PrivateKeyEmpty => String::from_str("Private key value is empty"),
        }
    }
}

/// `Ok` when no check fails, else the first failing check.
pub open spec fn check_result(e: Option<ConfigError>) -> Result<(), ConfigError> {
    match e {
        Some(e) => Err(e),
        None => Ok(()),
    }
}

pub open spec fn preprocessing_params_error(p: PreprocessingParams) -> Option<ConfigError> {
    if p.file@.len() == 0 {
        Some(ConfigError::PreprocessingFileRequired)
    } else {
        None
    }
}

pub open spec fn query_params_error(p: QueryParams) -> Option<ConfigError> {
    if p.file@.len() == 0 {
        Some(ConfigError::QueryFileRequired)
    } else {
        None
    }
}

pub open spec fn groth16_assets_error(a: Groth16Assets) -> Option<ConfigError> {
    if a.circuit_file@.len() == 0 {
        Some(ConfigError::CircuitFileRequired)
    } else if a.r1cs_file@.len() == 0 {
        Some(ConfigError::R1csFileRequired)
    } else if a.pk_file@.len() == 0 {
        Some(ConfigError::PkFileRequired)
    } else {
        None
    }
}

/// The first failing check of the parameters' configuration, in the order
/// URL, checksum path, directory, preprocessing, query, Groth16 assets.
pub open spec fn public_params_error(c: PublicParamsConfig) -> Option<ConfigError> {
    if c.params_root_url@.len() == 0 {
        Some(ConfigError::UrlRequired)
    } else if c.checksum_expected_local_path@.len() == 0 {
        Some(ConfigError::ChecksumPathRequired)
    } else if c.dir@.len() == 0 {
        Some(ConfigError::DirectoryRequired)
    } else if preprocessing_params_error(c.preprocessing_params) is Some {
        preprocessing_params_error(c.preprocessing_params)
    } else if query_params_error(c.query_params) is Some {
        query_params_error(c.query_params)
    } else {
        groth16_assets_error(c.groth16_assets)
    }
}

/// The first failing check of the gateway configuration. The identity is
/// checked as given: a keystore with a password, or else a private key alone.
pub open spec fn avs_error(c: AvsConfig) -> Option<ConfigError> {
    if c.gateway_url@.len() == 0 {
        Some(ConfigError::GatewayUrlRequired)
    } else if c.issuer@.len() == 0 {
        Some(ConfigError::IssuerRequired)
    } else if c.worker_id@.len() == 0 {
        Some(ConfigError::WorkerIdRequired)
    } else {
        match (c.lagr_keystore, c.lagr_pwd, c.lagr_private_key) {
            (Some(k), Some(p), _) => if k@.len() == 0 {
                Some(ConfigError::KeystorePathEmpty)
            } else if p@.len() == 0 {
                Some(ConfigError::PasswordEmpty)
            } else {
                None
            },
            (None, None, Some(k)) => if k@.len() == 0 {
                Some(ConfigError::PrivateKeyEmpty)
            } else {
                None
            },
            _ => None,
        }
    }
}

/// The first failing check of the whole configuration: the parameters first,
/// then the gateway.
pub open spec fn config_error(c: Config) -> Option<ConfigError> {
    if public_params_error(c.public_params) is Some {
        public_params_error(c.public_params)
    } else {
        avs_error(c.avs)
    }
}

fn required(s: &String, e: ConfigError) -> (r: Result<(), ConfigError>)
    ensures
        r == (if s@.len() == 0 {
            Err::<(), ConfigError>(e)
        } else {
            Ok(())
        }),
{
    if s.as_str().is_empty() {
        Err(e)
    } else {
        Ok(())
    }
}

impl PreprocessingParams {
    pub fn validate(&self) -> (r: Result<(), ConfigError>)
        ensures
            r == check_result(preprocessing_params_error(*self)),
    {
        required(&self.file, ConfigError::PreprocessingFileRequired)
    }
}

impl QueryParams {
    pub fn validate(&self) -> (r: Result<(), ConfigError>)
        ensures
            r == check_result(query_params_error(*self)),
    {
        required(&self.file, ConfigError::QueryFileRequired)
    }
}

impl Groth16Assets {
    pub fn validate(&self) -> (r: Result<(), ConfigError>)
        ensures
            r == check_result(groth16_assets_error(*self)),
    {
        required(&self.circuit_file, ConfigError::CircuitFileRequired)?;
        required(&self.r1cs_file, ConfigError::R1csFileRequired)?;
        required(&self.pk_file, ConfigError::PkFileRequired)
    }
}

/// Joins `url` and a path segment with a `/`.
pub open spec fn join_url(url: Seq<char>, segment: Seq<char>) -> Seq<char> {
    url + "/"@ + segment
}

/// Adds the mp2 version as a path segment of `url`:
/// `https://base.com` becomes `https://base.com/<mp2_version>`.
pub fn add_mp2_version_path_to_url(url: &str, mp2_version: &str) -> (r: String)
    ensures
        r@ == join_url(url@, mp2_version@),
{
    let mut s = String::from_str(url);
    s.append("/");
    s.append(mp2_version);
    s
}

impl PublicParamsConfig {
    /// Checks that the required settings are present; the error is the first
    /// missing one.
    pub fn validate(&self) -> (r: Result<(), ConfigError>)
        ensures
            r == check_result(public_params_error(*self)),
    {
        required(&self.params_root_url, ConfigError::UrlRequired)?;
        required(&self.checksum_expected_local_path, ConfigError::ChecksumPathRequired)?;
        required(&self.dir, ConfigError::DirectoryRequired)?;
        self.preprocessing_params.validate()?;
        self.query_params.validate()?;
        self.groth16_assets.validate()
    }

    /// The base URL of the parameter files for the given mp2 version.
    pub fn params_base_url(&self, mp2_version: &str) -> (r: String)
        ensures
            r@ == join_url(self.params_root_url@, mp2_version@),
    {
        add_mp2_version_path_to_url(self.params_root_url.as_str(), mp2_version)
    }

    /// The URL of the checksum file for the given mp2 version.
    pub fn checksum_file_url(&self, mp2_version: &str) -> (r: String)
        ensures
            r@ == join_url(join_url(self.params_root_url@, mp2_version@), PARAMS_CHECKSUM_FILENAME@),
    {
        let url = self.params_base_url(mp2_version);
        let mut s = url;
        s.append("/");
        s.append(PARAMS_CHECKSUM_FILENAME);
        s
    }
}

impl AvsConfig {
    /// Checks that the required settings are present; the error is the first
    /// missing one.
    pub fn validate(&self) -> (r: Result<(), ConfigError>)
        ensures
            r == check_result(avs_error(*self)),
    {
        required(&self.gateway_url, ConfigError::GatewayUrlRequired)?;
        required(&self.issuer, ConfigError::IssuerRequired)?;
        required(&self.worker_id, ConfigError::WorkerIdRequired)?;
        match (&self.lagr_keystore, &self.lagr_pwd, &self.lagr_private_key) {
            (Some(kpath), Some(pwd), _) => {
                required(kpath, ConfigError::KeystorePathEmpty)?;
                required(pwd, ConfigError::PasswordEmpty)
            },
            (None, None, Some(pkey)) => required(pkey, ConfigError::PrivateKeyEmpty),
            _ => Ok(()),
        }
    }
}

impl Config {
    /// Checks the parameters' configuration, then the gateway's.
    pub fn validate(&self) -> (r: Result<(), ConfigError>)
        ensures
            r == check_result(config_error(*self)),
    {
        self.public_params.validate()?;
        self.avs.validate()
    }
}

/// How the worker's signing key is obtained.
pub enum IdentitySource {
    /// Decrypt the keystore at `path` with `password`.
    Keystore { path: String, password: String },
    /// Use this private key.
    PrivateKey(String),
}

/// The identity settings do not name a key.
#[derive(Clone, Copy, Debug, PartialEq, Eq, Structural)]
pub enum IdentityError {
    NoIdentity,
}

impl IdentityError {
    pub fn message(&self) -> (r: String)
        ensures
            r@ == "Must specify either keystore path w/ password OR private key"@,
    {
        String::from_str("Must specify either keystore path w/ password OR private key")
    }
}

/// The key source the identity settings name: a keystore with its password
/// and no private key, or a private key next to a keystore without password.
pub open spec fn identity_source_spec(c: AvsConfig, r: Result<IdentitySource, IdentityError>) -> bool {
    match (c.lagr_keystore, c.lagr_pwd, c.lagr_private_key) {
        (Some(k), Some(p), None) => (r matches Ok(IdentitySource::Keystore { path, password }) && path@
            == k@ && password@ == p@),
        (Some(_), None, Some(k)) => (r matches Ok(IdentitySource::PrivateKey(key)) && key@ == k@),
        _ => r == Err::<IdentitySource, IdentityError>(IdentityError::NoIdentity),
    }
}

impl AvsConfig {
    /// Chooses where the worker's signing key comes from.
    pub fn identity_source(&self) -> (r: Result<IdentitySource, IdentityError>)
        ensures
            identity_source_spec(*self, r),
    {
        match (&self.lagr_keystore, &self.lagr_pwd, &self.lagr_private_key) {
            (Some(path), Some(password), None) => Ok(
                IdentitySource::Keystore { path: path.clone(), password: password.clone() },
            ),
            (Some(_), None, Some(key)) => Ok(IdentitySource::PrivateKey(key.clone())),
            _ => Err(IdentityError::NoIdentity),
        }
    }
}

/// The claims of the worker's authentication token.
pub struct WorkerClaims {
    /// The issuer, from the configuration.
    pub issuer: String,
    /// The subject: the worker's id.
    pub subject: String,
    /// When the token is issued, in seconds since the epoch.
    pub issued_at: u64,
    /// The worker's class name.
    pub worker_class: String,
}

impl Config {
    /// The claims of a token issued at `issued_at`.
    pub fn claims(&self, issued_at: u64) -> (r: WorkerClaims)
        ensures
            r.issuer@ == self.avs.issuer@,
            r.subject@ == self.avs.worker_id@,
            r.issued_at == issued_at,
            r.worker_class@ == difficulty_name(self.worker.instance_type),
    {
        WorkerClaims {
            issuer: self.avs.issuer.clone(),
            subject: self.avs.worker_id.clone(),
            issued_at,
            worker_class: self.worker.instance_type.name(),
        }
    }
}

/// The parameter files a prover is built from.
pub enum ProverAssets {
    /// One file of public parameters.
    Params { file: String },
    /// The Groth16 circuit, constraint system and proving key.
    Groth16 { circuit_file: String, r1cs_file: String, pk_file: String },
}

impl PublicParamsConfig {
    /// The files of the prover for tasks of kind `kind`: the query parameters,
    /// the preprocessing parameters, or the Groth16 assets.
    pub fn assets_for(&self, kind: ProverType) -> (r: ProverAssets)
        ensures
            match kind {
                ProverType::V1Query => r matches ProverAssets::Params { file } && file@
                    == self.query_params.file@,
                ProverType::V1Preprocessing => r matches ProverAssets::Params { file } && file@
                    == self.preprocessing_params.file@,
                ProverType::V1Groth16 => r matches ProverAssets::Groth16 { circuit_file, r1cs_file, pk_file }
                    && circuit_file@ == self.groth16_assets.circuit_file@ && r1cs_file@
                    == self.groth16_assets.r1cs_file@ && pk_file@ == self.groth16_assets.pk_file@,
            },
    {
        match kind {
            ProverType::V1Query => ProverAssets::Params { file: self.query_params.file.clone() },
            ProverType::V1Preprocessing => ProverAssets::Params {
                file: self.preprocessing_params.file.clone(),
            },
            ProverType::V1Groth16 => ProverAssets::Groth16 {
                circuit_file: self.groth16_assets.circuit_file.clone(),
                r1cs_file: self.groth16_assets.r1cs_file.clone(),
                pk_file: self.groth16_assets.pk_file.clone(),
            },
        }
    }
}

} // verus!
