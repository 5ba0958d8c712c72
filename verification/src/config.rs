//! Server settings as plain data, with their validation rules.
//!
//! Loading and persisting settings is I/O and lives outside this
//! library; the data and the rules deciding whether settings are
//! acceptable live here.

use vstd::prelude::*;

verus! {

/// Game difficulty.
#[derive(Clone, Copy, PartialEq, Eq, Structural, Debug)]
pub enum Difficulty {
    Peaceful,
    Easy,
    Normal,
    Hard,
}

/// Player game mode.
#[derive(Clone, Copy, PartialEq, Eq, Structural, Debug)]
pub enum GameMode {
    Survival,
    Creative,
    Adventure,
    Spectator,
}

/// The first validation rule a configuration breaks.
#[derive(Clone, Copy, PartialEq, Eq, Structural, Debug)]
pub enum ConfigError {
    ViewDistanceTooSmall,
    ViewDistanceTooLarge,
    EncryptionRequired,
}

/// The basic server configuration, held as plain values: the bind
/// address as four octets and a port, and the tick rate as whole ticks
/// per second.
pub struct BasicConfiguration {
    /// The address to bind the server to.
    pub server_ip: [u8; 4],
    /// The port to bind the server to.
    pub server_port: u16,
    /// The seed for world generation.
    pub seed: String,
    /// The maximum number of players allowed on the server. `0`
    /// disables the limit.
    pub max_players: u32,
    /// The maximum view distance for players.
    pub view_distance: u8,
    /// The maximum simulated view distance.
    pub simulation_distance: u8,
    /// The default game difficulty.
    pub default_difficulty: Difficulty,
    /// Whether the Nether dimension is enabled.
    pub allow_nether: bool,
    /// Whether the server is in hardcore mode.
    pub hardcore: bool,
    /// Whether online mode is enabled. Requires valid accounts.
    pub online_mode: bool,
    /// Whether packet encryption is enabled. Required when online mode
    /// is enabled.
    pub encryption: bool,
    /// The server's description displayed on the status screen.
    pub motd: String,
    /// Ticks per second.
    pub tps: u32,
    /// The default game mode for players.
    pub default_gamemode: GameMode,
    /// Whether to remove IPs from logs.
    pub scrub_ips: bool,
    /// Whether to use a server favicon.
    pub use_favicon: bool,
    /// Path to the server favicon.
    pub favicon_path: String,
}

impl Default for BasicConfiguration {
    fn default() -> (r: Self)
        ensures
            r.server_ip@ == seq![0u8, 0u8, 0u8, 0u8],
            r.server_port == 25565u16,
            r.seed@ == Seq::<char>::empty(),
            r.max_players == 100000u32,
            r.view_distance == 10u8,
            r.simulation_distance == 10u8,
            r.default_difficulty == Difficulty::Normal,
            r.allow_nether,
            !r.hardcore,
            r.online_mode,
            r.encryption,
            r.motd@ == "A Blazing fast Pumpkin Server!"@,
            r.tps == 20u32,
            r.default_gamemode == GameMode::Survival,
            r.scrub_ips,
            r.use_favicon,
            r.favicon_path@ == "icon.png"@,
            r.spec_valid(),
    {
        BasicConfiguration {
            server_ip: [0, 0, 0, 0],
            server_port: 25565,
            seed: String::new(),
            max_players: 100000,
            view_distance: 10,
            simulation_distance: 10,
            default_difficulty: Difficulty::Normal,
            allow_nether: true,
            hardcore: false,
            online_mode: true,
            encryption: true,
            motd: "A Blazing fast Pumpkin Server!".to_string(),
            tps: 20,
            default_gamemode: GameMode::Survival,
            scrub_ips: true,
            use_favicon: true,
            favicon_path: "icon.png".to_string(),
        }
    }
}

impl BasicConfiguration {
    /// The validation rules: view distance between 2 and 32, and
    /// encryption on whenever online mode is on.
    pub open spec fn spec_valid(&self) -> bool {
        &&& 2 <= self.view_distance
        &&& self.view_distance <= 32
        &&& self.online_mode ==> self.encryption
    }

    /// Check the configuration, reporting the first broken rule.
    /// Settings are accepted exactly when every rule holds.
    pub fn validate(&self) -> (r: Result<(), ConfigError>)
        ensures
            r is Ok <==> self.spec_valid(),
            r == Result::<(), ConfigError>::Err(ConfigError::ViewDistanceTooSmall)
                <==> self.view_distance < 2,
            r == Result::<(), ConfigError>::Err(ConfigError::ViewDistanceTooLarge)
                <==> self.view_distance > 32,
            r == Result::<(), ConfigError>::Err(ConfigError::EncryptionRequired) <==> (2
                <= self.view_distance <= 32 && self.online_mode && !self.encryption),
    {
        if self.view_distance < 2 {
            Err(ConfigError::ViewDistanceTooSmall)
        } else if self.view_distance > 32 {
            Err(ConfigError::ViewDistanceTooLarge)
        } else if self.online_mode && !self.encryption {
            Err(ConfigError::EncryptionRequired)
        } else {
            Ok(())
        }
    }
}

} // verus!
