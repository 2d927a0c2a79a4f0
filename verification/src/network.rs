//! The networks a worker operator can register on, with their chain ids and
//! the addresses of the contracts the registration talks to.

use vstd::prelude::*;

verus! {

/// An Ethereum address: 20 bytes.
pub type Address = [u8; 20];

/// ZKMR service manager, the `avs` argument of the registration digest.
pub const HOLESKY_ZKMR_SERVICE_MANAGER_ADDR: Address = [
    0xf9, 0x8D, 0x5D, 0xe1, 0x01, 0x41, 0x10, 0xC6, 0x5c, 0x51,
    0xb8, 0x5E, 0xa5, 0x5f, 0x73, 0x86, 0x32, 0x15, 0xCC, 0x10,
];
pub const MAINNET_ZKMR_SERVICE_MANAGER_ADDR: Address = [
    0x22, 0xCA, 0xc0, 0xe6, 0xA1, 0x46, 0x5F, 0x04, 0x34, 0x28,
    0xe8, 0xAe, 0xF7, 0x37, 0xb3, 0xcb, 0x09, 0xD0, 0xeE, 0xDa,
];

/// ZKMR stake registry.
pub const HOLESKY_ZKMR_STAKE_REGISTRY_ADDR: Address = [
    0xf7, 0x24, 0xcD, 0xC7, 0xC4, 0x0f, 0xd6, 0xB5, 0x95, 0x90,
    0xC6, 0x24, 0xE8, 0xF0, 0xE5, 0xE3, 0x84, 0x3b, 0x4B, 0xE4,
];
pub const MAINNET_ZKMR_STAKE_REGISTRY_ADDR: Address = [
    0x8d, 0xcd, 0xCc, 0x50, 0xCc, 0x00, 0xFe, 0x89, 0x8b, 0x03,
    0x7b, 0xF6, 0x1c, 0xCf, 0x3b, 0xf9, 0xba, 0x46, 0xf1, 0x5C,
];

/// EigenLayer AVS directory.
pub const MAINNET_AVS_DIRECTORY_ADDR: Address = [
    0x13, 0x5d, 0xda, 0x56, 0x0e, 0x94, 0x66, 0x95, 0xd6, 0xf1,
    0x55, 0xda, 0xca, 0xfc, 0x6f, 0x1f, 0x25, 0xc1, 0xf5, 0xaf,
];
pub const HOLESKY_AVS_DIRECTORY_ADDR: Address = [
    0x05, 0x57, 0x33, 0x00, 0x00, 0x64, 0x33, 0x3C, 0xaD, 0xDb,
    0xC9, 0x27, 0x63, 0xc5, 0x8B, 0xF0, 0x19, 0x2f, 0xFe, 0xBf,
];

/// EigenLayer delegation manager.
pub const MAINNET_DELEGATION_MANAGER_ADDR: Address = [
    0x39, 0x05, 0x3D, 0x51, 0xB7, 0x7D, 0xC0, 0xd3, 0x60, 0x36,
    0xFc, 0x1f, 0xCc, 0x8C, 0xb8, 0x19, 0xdf, 0x8E, 0xf3, 0x7A,
];
pub const HOLESKY_DELEGATION_MANAGER_ADDR: Address = [
    0xA4, 0x41, 0x51, 0x48, 0x98, 0x61, 0xFe, 0x9e, 0x30, 0x55,
    0xd9, 0x5a, 0xdC, 0x98, 0xFb, 0xD4, 0x62, 0xB9, 0x48, 0xe7,
];

/// A network the operator registers on. `Mainnet` is the default.
#[derive(Clone, Copy, Debug, PartialEq, Eq, Structural)]
pub enum Network {
    Mainnet,
    Holesky,
    Hoodi,
}

impl Default for Network {
    fn default() -> (r: Self)
        ensures
            r == Network::Mainnet,
    {
        Network::Mainnet
    }
}

pub open spec fn network_name(n: Network) -> Seq<char> {
    match n {
        Network::Mainnet => "mainnet"@,
        Network::Holesky => "holesky"@,
        Network::Hoodi => "hoodi"@,
    }
}

pub open spec fn network_chain_id(n: Network) -> u64 {
    match n {
        Network::Mainnet => 1,
        Network::Holesky => 17000,
        Network::Hoodi => 560048,
    }
}

/// The networks whose contract addresses are known.
pub open spec fn has_contracts(n: Network) -> bool {
    n != Network::Hoodi
}

impl Network {
    /// The network's name, as written on the command line.
    pub fn describe(&self) -> (r: String)
        ensures
            r@ == network_name(*self),
    {
        match self {
            Network::Mainnet => String::from_str("mainnet"),
            Network::Holesky => String::from_str("holesky"),
            Network::Hoodi => String::from_str("hoodi"),
        }
    }

    /// The network's chain id.
    pub fn chain_id(&self) -> (r: u64)
        ensures
            r == network_chain_id(*self),
    {
        match self {
            Network::Mainnet => 1,
            Network::Holesky => 17000,
            Network::Hoodi => 560048,
        }
    }

    /// The Lagrange stake registry, where operators register.
    pub fn lagrange_registry_address(&self) -> (r: Address)
        requires
            has_contracts(*self),
        ensures
            r == (if *self == Network::Mainnet {
                MAINNET_ZKMR_STAKE_REGISTRY_ADDR
            } else {
                HOLESKY_ZKMR_STAKE_REGISTRY_ADDR
            }),
    {
        match self {
            Network::Mainnet => MAINNET_ZKMR_STAKE_REGISTRY_ADDR,
            _ => HOLESKY_ZKMR_STAKE_REGISTRY_ADDR,
        }
    }

    /// The Lagrange service manager, needed for the registration digest.
    pub fn lagrange_service_manager_address(&self) -> (r: Address)
        requires
            has_contracts(*self),
        ensures
            r == (if *self == Network::Mainnet {
                MAINNET_ZKMR_SERVICE_MANAGER_ADDR
            } else {
                HOLESKY_ZKMR_SERVICE_MANAGER_ADDR
            }),
    {
        match self {
            Network::Mainnet => MAINNET_ZKMR_SERVICE_MANAGER_ADDR,
            _ => HOLESKY_ZKMR_SERVICE_MANAGER_ADDR,
        }
    }

    /// The EigenLayer delegation manager, which knows the operators.
    pub fn eigen_delegation_manager_address(&self) -> (r: Address)
        requires
            has_contracts(*self),
        ensures
            r == (if *self == Network::Mainnet {
                MAINNET_DELEGATION_MANAGER_ADDR
            } else {
                HOLESKY_DELEGATION_MANAGER_ADDR
            }),
    {
        match self {
            Network::Mainnet => MAINNET_DELEGATION_MANAGER_ADDR,
            _ => HOLESKY_DELEGATION_MANAGER_ADDR,
        }
    }

    /// The EigenLayer AVS directory, which computes the registration digest.
    pub fn eigen_avs_directory(&self) -> (r: Address)
        requires
            has_contracts(*self),
        ensures
            r == (if *self == Network::Mainnet {
                MAINNET_AVS_DIRECTORY_ADDR
            } else {
                HOLESKY_AVS_DIRECTORY_ADDR
            }),
    {
        match self {
            Network::Mainnet => MAINNET_AVS_DIRECTORY_ADDR,
            _ => HOLESKY_AVS_DIRECTORY_ADDR,
        }
    }
}

} // verus!
