use lgn_worker::network::{
    Network, HOLESKY_AVS_DIRECTORY_ADDR, HOLESKY_DELEGATION_MANAGER_ADDR,
    HOLESKY_ZKMR_SERVICE_MANAGER_ADDR, HOLESKY_ZKMR_STAKE_REGISTRY_ADDR,
    MAINNET_AVS_DIRECTORY_ADDR, MAINNET_DELEGATION_MANAGER_ADDR,
    MAINNET_ZKMR_SERVICE_MANAGER_ADDR, MAINNET_ZKMR_STAKE_REGISTRY_ADDR,
};

#[test]
fn test_network() {
    assert_eq!(
        Network::Holesky.eigen_avs_directory(),
        HOLESKY_AVS_DIRECTORY_ADDR
    );
    assert_eq!(
        Network::Mainnet.eigen_avs_directory(),
        MAINNET_AVS_DIRECTORY_ADDR
    );
    assert_eq!(
        Network::Holesky.eigen_delegation_manager_address(),
        HOLESKY_DELEGATION_MANAGER_ADDR
    );
    assert_eq!(
        Network::Mainnet.eigen_delegation_manager_address(),
        MAINNET_DELEGATION_MANAGER_ADDR
    );
}

#[test]
fn registry_and_service_manager_addresses() {
    assert_eq!(
        Network::Mainnet.lagrange_registry_address(),
        MAINNET_ZKMR_STAKE_REGISTRY_ADDR
    );
    assert_eq!(
        Network::Holesky.lagrange_registry_address(),
        HOLESKY_ZKMR_STAKE_REGISTRY_ADDR
    );
    assert_eq!(
        Network::Mainnet.lagrange_service_manager_address(),
        MAINNET_ZKMR_SERVICE_MANAGER_ADDR
    );
    assert_eq!(
        Network::Holesky.lagrange_service_manager_address(),
        HOLESKY_ZKMR_SERVICE_MANAGER_ADDR
    );
}

#[test]
fn address_constants_match_their_hex() {
    assert_eq!(
        hex::encode(MAINNET_AVS_DIRECTORY_ADDR),
        "135dda560e946695d6f155dacafc6f1f25c1f5af"
    );
    assert_eq!(
        hex::encode(HOLESKY_DELEGATION_MANAGER_ADDR),
        "a44151489861fe9e3055d95adc98fbd462b948e7"
    );
}

#[test]
fn network_names_and_chain_ids() {
    assert_eq!(Network::Mainnet.describe(), "mainnet");
    assert_eq!(Network::Holesky.describe(), "holesky");
    assert_eq!(Network::Hoodi.describe(), "hoodi");
    assert_eq!(Network::Mainnet.chain_id(), 1);
    assert_eq!(Network::Holesky.chain_id(), 17000);
    assert_eq!(Network::Hoodi.chain_id(), 560048);
    assert_eq!(Network::default(), Network::Mainnet);
}
