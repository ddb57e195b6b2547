//! The commands of the API and the arguments they take.

use vstd::prelude::*;

use crate::text::same_text;
use crate::web::arguments::{field, field_read, option_view, optional, optional_read};
use crate::web::arguments::{argument_of, value_read, Argument, ArgumentView, Kind};
use crate::web::json::json_shape;

verus! {

/// A command of the API.
#[derive(Clone, Copy, Debug, PartialEq, Eq, Structural)]
pub enum Command {
    GetConfig,
    UpdateConfig,
    UpdateConfigPreservingControls,
    UpdateAutoplayControls,
    ListBots,
    GetBotSettings,
    UpdateBotSettings,
    SetActiveBot,
    InstallBotFromGithub,
    InstallBotFromZip,
    UpdateBotFromManifest,
    SyncBotDeps,
    StartCapture,
    RestartCapture,
    StopCapture,
    DetectSystemChrome,
    ListCftInstalled,
    DownloadChromeForTesting,
    RemoveChromeForTesting,
    GetStatus,
    GetCaptureStatus,
    GetLogDir,
    OpenLogFolder,
    OpenExternalUrl,
    ListLogSessions,
    ReadLogSession,
    ReadInspector,
    GetAnalysis,
    GetGameSnapshot,
    ComputeBotHoraScore,
    GetMahgenView,
    DeleteBot,
    ListGameHistory,
    GetGameHistoryRecord,
    GetGameHistoryEvents,
    DeleteGameHistoryEntry,
    CheckForUpdate,
    ApplyUpdate,
    NativeApiRedeem,
    NativeApiKeyStatus,
    NativeApiModels,
    NativeApiHealth,
    NativeApiReviewHistoryGame,
    NativeApiReviewStatus,
    NativeApiReviewShare,
    NativeApiListShares,
    NativeApiRevokeShare,
    NativeApiCreateOrder,
    NativeApiOrderResult,
    NativeApiCreateSubscription,
    NativeApiSubscriptionResult,
    NativeApiCreateCheckout,
    NativeApiCheckoutResult,
}

/// An argument of a command.
#[derive(Clone, Copy, Debug, PartialEq, Eq, Structural)]
pub enum Key {
    NewConfig,
    Enabled,
    RemainingGames,
    Name,
    Values,
    Mode,
    Repo,
    AssetGlob,
    ZipPath,
    Force,
    Channel,
    Version,
    Session,
    Url,
    Req,
    Actor,
    IsTsumo,
    Filter,
    Limit,
    Offset,
    Id,
    BaseUrl,
    Code,
    Proxy,
    Email,
    RenewKey,
    Key,
    Model,
    ReviewId,
    ShareId,
    Product,
    Redeem,
    OrderId,
    Claim,
    SubscriptionId,
    CheckoutId,
}

/// An argument of a command, and whether it has to be there.
#[derive(Clone, Copy, Debug, PartialEq, Eq, Structural)]
pub struct Param {
    pub key: Key,
    pub required: bool,
}

/// An argument that has to be there.
pub open spec fn needed(key: Key) -> Param {
    Param { key, required: true }
}

/// An argument that may be left out.
pub open spec fn allowed(key: Key) -> Param {
    Param { key, required: false }
}

/// The command of a name.
pub open spec fn command_named(name: Seq<char>) -> Option<Command> {
    if name == "get_config"@ {
        Some(Command::GetConfig)
    } else if name == "update_config"@ {
        Some(Command::UpdateConfig)
    } else if name == "update_config_preserving_controls"@ {
        Some(Command::UpdateConfigPreservingControls)
    } else if name == "update_autoplay_controls"@ {
        Some(Command::UpdateAutoplayControls)
    } else if name == "list_bots"@ {
        Some(Command::ListBots)
    } else if name == "get_bot_settings"@ {
        Some(Command::GetBotSettings)
    } else if name == "update_bot_settings"@ {
        Some(Command::UpdateBotSettings)
    } else if name == "set_active_bot"@ {
        Some(Command::SetActiveBot)
    } else if name == "install_bot_from_github"@ {
        Some(Command::InstallBotFromGithub)
    } else if name == "install_bot_from_zip"@ {
        Some(Command::InstallBotFromZip)
    } else if name == "update_bot_from_manifest"@ {
        Some(Command::UpdateBotFromManifest)
    } else if name == "sync_bot_deps"@ {
        Some(Command::SyncBotDeps)
    } else if name == "start_capture"@ {
        Some(Command::StartCapture)
    } else if name == "restart_capture"@ {
        Some(Command::RestartCapture)
    } else if name == "stop_capture"@ {
        Some(Command::StopCapture)
    } else if name == "detect_system_chrome"@ {
        Some(Command::DetectSystemChrome)
    } else if name == "list_cft_installed"@ {
        Some(Command::ListCftInstalled)
    } else if name == "download_chrome_for_testing"@ {
        Some(Command::DownloadChromeForTesting)
    } else if name == "remove_chrome_for_testing"@ {
        Some(Command::RemoveChromeForTesting)
    } else if name == "get_status"@ {
        Some(Command::GetStatus)
    } else if name == "get_capture_status"@ {
        Some(Command::GetCaptureStatus)
    } else if name == "get_log_dir"@ {
        Some(Command::GetLogDir)
    } else if name == "open_log_folder"@ {
        Some(Command::OpenLogFolder)
    } else if name == "open_external_url"@ {
        Some(Command::OpenExternalUrl)
    } else if name == "list_log_sessions"@ {
        Some(Command::ListLogSessions)
    } else if name == "read_log_session"@ {
        Some(Command::ReadLogSession)
    } else if name == "read_inspector"@ {
        Some(Command::ReadInspector)
    } else if name == "get_analysis"@ {
        Some(Command::GetAnalysis)
    } else if name == "get_game_snapshot"@ {
        Some(Command::GetGameSnapshot)
    } else if name == "compute_bot_hora_score"@ {
        Some(Command::ComputeBotHoraScore)
    } else if name == "get_mahgen_view"@ {
        Some(Command::GetMahgenView)
    } else if name == "delete_bot"@ {
        Some(Command::DeleteBot)
    } else if name == "list_game_history"@ {
        Some(Command::ListGameHistory)
    } else if name == "get_game_history_record"@ {
        Some(Command::GetGameHistoryRecord)
    } else if name == "get_game_history_events"@ {
        Some(Command::GetGameHistoryEvents)
    } else if name == "delete_game_history_entry"@ {
        Some(Command::DeleteGameHistoryEntry)
    } else if name == "check_for_update"@ {
        Some(Command::CheckForUpdate)
    } else if name == "apply_update"@ {
        Some(Command::ApplyUpdate)
    } else if name == "native_api_redeem"@ {
        Some(Command::NativeApiRedeem)
    } else if name == "native_api_key_status"@ {
        Some(Command::NativeApiKeyStatus)
    } else if name == "native_api_models"@ {
        Some(Command::NativeApiModels)
    } else if name == "native_api_health"@ {
        Some(Command::NativeApiHealth)
    } else if name == "native_api_review_history_game"@ {
        Some(Command::NativeApiReviewHistoryGame)
    } else if name == "native_api_review_status"@ {
        Some(Command::NativeApiReviewStatus)
    } else if name == "native_api_review_share"@ {
        Some(Command::NativeApiReviewShare)
    } else if name == "native_api_list_shares"@ {
        Some(Command::NativeApiListShares)
    } else if name == "native_api_revoke_share"@ {
        Some(Command::NativeApiRevokeShare)
    } else if name == "native_api_create_order"@ {
        Some(Command::NativeApiCreateOrder)
    } else if name == "native_api_order_result"@ {
        Some(Command::NativeApiOrderResult)
    } else if name == "native_api_create_subscription"@ {
        Some(Command::NativeApiCreateSubscription)
    } else if name == "native_api_subscription_result"@ {
        Some(Command::NativeApiSubscriptionResult)
    } else if name == "native_api_create_checkout"@ {
        Some(Command::NativeApiCreateCheckout)
    } else if name == "native_api_checkout_result"@ {
        Some(Command::NativeApiCheckoutResult)
    } else {
        None
    }
}

impl Command {
    /// The command of a name.
    pub fn parse(name: &str) -> (command: Option<Command>)
        ensures
            command == command_named(name@),
    {
        if same_text(name, "get_config") {
            Some(Command::GetConfig)
        } else if same_text(name, "update_config") {
            Some(Command::UpdateConfig)
        } else if same_text(name, "update_config_preserving_controls") {
            Some(Command::UpdateConfigPreservingControls)
        } else if same_text(name, "update_autoplay_controls") {
            Some(Command::UpdateAutoplayControls)
        } else if same_text(name, "list_bots") {
            Some(Command::ListBots)
        } else if same_text(name, "get_bot_settings") {
            Some(Command::GetBotSettings)
        } else if same_text(name, "update_bot_settings") {
            Some(Command::UpdateBotSettings)
        } else if same_text(name, "set_active_bot") {
            Some(Command::SetActiveBot)
        } else if same_text(name, "install_bot_from_github") {
            Some(Command::InstallBotFromGithub)
        } else if same_text(name, "install_bot_from_zip") {
            Some(Command::InstallBotFromZip)
        } else if same_text(name, "update_bot_from_manifest") {
            Some(Command::UpdateBotFromManifest)
        } else if same_text(name, "sync_bot_deps") {
            Some(Command::SyncBotDeps)
        } else if same_text(name, "start_capture") {
            Some(Command::StartCapture)
        } else if same_text(name, "restart_capture") {
            Some(Command::RestartCapture)
        } else if same_text(name, "stop_capture") {
            Some(Command::StopCapture)
        } else if same_text(name, "detect_system_chrome") {
            Some(Command::DetectSystemChrome)
        } else if same_text(name, "list_cft_installed") {
            Some(Command::ListCftInstalled)
        } else if same_text(name, "download_chrome_for_testing") {
            Some(Command::DownloadChromeForTesting)
        } else if same_text(name, "remove_chrome_for_testing") {
            Some(Command::RemoveChromeForTesting)
        } else if same_text(name, "get_status") {
            Some(Command::GetStatus)
        } else if same_text(name, "get_capture_status") {
            Some(Command::GetCaptureStatus)
        } else if same_text(name, "get_log_dir") {
            Some(Command::GetLogDir)
        } else if same_text(name, "open_log_folder") {
            Some(Command::OpenLogFolder)
        } else if same_text(name, "open_external_url") {
            Some(Command::OpenExternalUrl)
        } else if same_text(name, "list_log_sessions") {
            Some(Command::ListLogSessions)
        } else if same_text(name, "read_log_session") {
            Some(Command::ReadLogSession)
        } else if same_text(name, "read_inspector") {
            Some(Command::ReadInspector)
        } else if same_text(name, "get_analysis") {
            Some(Command::GetAnalysis)
        } else if same_text(name, "get_game_snapshot") {
            Some(Command::GetGameSnapshot)
        } else if same_text(name, "compute_bot_hora_score") {
            Some(Command::ComputeBotHoraScore)
        } else if same_text(name, "get_mahgen_view") {
            Some(Command::GetMahgenView)
        } else if same_text(name, "delete_bot") {
            Some(Command::DeleteBot)
        } else if same_text(name, "list_game_history") {
            Some(Command::ListGameHistory)
        } else if same_text(name, "get_game_history_record") {
            Some(Command::GetGameHistoryRecord)
        } else if same_text(name, "get_game_history_events") {
            Some(Command::GetGameHistoryEvents)
        } else if same_text(name, "delete_game_history_entry") {
            Some(Command::DeleteGameHistoryEntry)
        } else if same_text(name, "check_for_update") {
            Some(Command::CheckForUpdate)
        } else if same_text(name, "apply_update") {
            Some(Command::ApplyUpdate)
        } else if same_text(name, "native_api_redeem") {
            Some(Command::NativeApiRedeem)
        } else if same_text(name, "native_api_key_status") {
            Some(Command::NativeApiKeyStatus)
        } else if same_text(name, "native_api_models") {
            Some(Command::NativeApiModels)
        } else if same_text(name, "native_api_health") {
            Some(Command::NativeApiHealth)
        } else if same_text(name, "native_api_review_history_game") {
            Some(Command::NativeApiReviewHistoryGame)
        } else if same_text(name, "native_api_review_status") {
            Some(Command::NativeApiReviewStatus)
        } else if same_text(name, "native_api_review_share") {
            Some(Command::NativeApiReviewShare)
        } else if same_text(name, "native_api_list_shares") {
            Some(Command::NativeApiListShares)
        } else if same_text(name, "native_api_revoke_share") {
            Some(Command::NativeApiRevokeShare)
        } else if same_text(name, "native_api_create_order") {
            Some(Command::NativeApiCreateOrder)
        } else if same_text(name, "native_api_order_result") {
            Some(Command::NativeApiOrderResult)
        } else if same_text(name, "native_api_create_subscription") {
            Some(Command::NativeApiCreateSubscription)
        } else if same_text(name, "native_api_subscription_result") {
            Some(Command::NativeApiSubscriptionResult)
        } else if same_text(name, "native_api_create_checkout") {
            Some(Command::NativeApiCreateCheckout)
        } else if same_text(name, "native_api_checkout_result") {
            Some(Command::NativeApiCheckoutResult)
        } else {
            None
        }
    }
}

/// The arguments that a command takes, in the order in which they are read.
pub open spec fn params_of(command: Command) -> Seq<Param> {
    match command {
        Command::GetConfig
        | Command::ListBots
        | Command::StartCapture
        | Command::RestartCapture
        | Command::StopCapture
        | Command::DetectSystemChrome
        | Command::ListCftInstalled
        | Command::GetStatus
        | Command::GetCaptureStatus
        | Command::GetLogDir
        | Command::ListLogSessions
        | Command::GetAnalysis
        | Command::GetGameSnapshot
        | Command::GetMahgenView
        | Command::CheckForUpdate
        | Command::ApplyUpdate => Seq::empty(),
        Command::UpdateConfig
        | Command::UpdateConfigPreservingControls => seq![needed(Key::NewConfig)],
        Command::UpdateAutoplayControls => seq![allowed(Key::Enabled), allowed(Key::RemainingGames)],
        Command::GetBotSettings
        | Command::UpdateBotFromManifest
        | Command::DeleteBot => seq![needed(Key::Name)],
        Command::UpdateBotSettings => seq![needed(Key::Name), needed(Key::Values)],
        Command::SetActiveBot => seq![needed(Key::Mode), needed(Key::Name)],
        Command::InstallBotFromGithub => seq![
            needed(Key::Repo),
            allowed(Key::AssetGlob),
            allowed(Key::Name),
        ],
        Command::InstallBotFromZip => seq![needed(Key::ZipPath), allowed(Key::Name)],
        Command::SyncBotDeps => seq![needed(Key::Name), needed(Key::Force)],
        Command::DownloadChromeForTesting => seq![allowed(Key::Channel)],
        Command::RemoveChromeForTesting => seq![needed(Key::Version)],
        Command::OpenLogFolder => seq![allowed(Key::Session)],
        Command::OpenExternalUrl => seq![needed(Key::Url)],
        Command::ReadLogSession
        | Command::ReadInspector => seq![needed(Key::Req)],
        Command::ComputeBotHoraScore => seq![needed(Key::Actor), needed(Key::IsTsumo)],
        Command::ListGameHistory => seq![
            allowed(Key::Filter),
            allowed(Key::Limit),
            allowed(Key::Offset),
        ],
        Command::GetGameHistoryRecord
        | Command::GetGameHistoryEvents
        | Command::DeleteGameHistoryEntry => seq![needed(Key::Id)],
        Command::NativeApiRedeem => seq![
            needed(Key::BaseUrl),
            needed(Key::Code),
            allowed(Key::Proxy),
            allowed(Key::Email),
            allowed(Key::RenewKey),
        ],
        Command::NativeApiKeyStatus
        | Command::NativeApiModels
        | Command::NativeApiListShares => seq![
            needed(Key::BaseUrl),
            needed(Key::Key),
            allowed(Key::Proxy),
        ],
        Command::NativeApiHealth => seq![needed(Key::BaseUrl), allowed(Key::Proxy)],
        Command::NativeApiReviewHistoryGame => seq![
            needed(Key::BaseUrl),
            needed(Key::Key),
            needed(Key::Id),
            allowed(Key::Proxy),
            allowed(Key::Model),
        ],
        Command::NativeApiReviewStatus
        | Command::NativeApiReviewShare => seq![
            needed(Key::BaseUrl),
            needed(Key::Key),
            needed(Key::ReviewId),
            allowed(Key::Proxy),
        ],
        Command::NativeApiRevokeShare => seq![
            needed(Key::BaseUrl),
            needed(Key::Key),
            needed(Key::ShareId),
            allowed(Key::Proxy),
        ],
        Command::NativeApiCreateOrder
        | Command::NativeApiCreateCheckout => seq![
            needed(Key::BaseUrl),
            needed(Key::Product),
            needed(Key::Redeem),
            allowed(Key::Proxy),
        ],
        Command::NativeApiOrderResult => seq![
            needed(Key::BaseUrl),
            needed(Key::OrderId),
            needed(Key::Claim),
            allowed(Key::Proxy),
        ],
        Command::NativeApiCreateSubscription => seq![
            needed(Key::BaseUrl),
            needed(Key::Product),
            allowed(Key::Proxy),
        ],
        Command::NativeApiSubscriptionResult => seq![
            needed(Key::BaseUrl),
            needed(Key::SubscriptionId),
            needed(Key::Claim),
            allowed(Key::Proxy),
        ],
        Command::NativeApiCheckoutResult => seq![
            needed(Key::BaseUrl),
            needed(Key::CheckoutId),
            needed(Key::Claim),
            allowed(Key::Proxy),
        ],
    }
}

impl Command {
    /// The arguments that the command takes, in the order in which they are read.
    pub fn params(self) -> (params: Vec<Param>)
        ensures
            params@ == params_of(self),
    {
        match self {
            Command::GetConfig
            | Command::ListBots
            | Command::StartCapture
            | Command::RestartCapture
            | Command::StopCapture
            | Command::DetectSystemChrome
            | Command::ListCftInstalled
            | Command::GetStatus
            | Command::GetCaptureStatus
            | Command::GetLogDir
            | Command::ListLogSessions
            | Command::GetAnalysis
            | Command::GetGameSnapshot
            | Command::GetMahgenView
            | Command::CheckForUpdate
            | Command::ApplyUpdate => Vec::new(),
            Command::UpdateConfig
            | Command::UpdateConfigPreservingControls => vec![Param { key: Key::NewConfig, required: true }],
            Command::UpdateAutoplayControls => vec![
                Param { key: Key::Enabled, required: false },
                Param { key: Key::RemainingGames, required: false },
            ],
            Command::GetBotSettings
            | Command::UpdateBotFromManifest
            | Command::DeleteBot => vec![Param { key: Key::Name, required: true }],
            Command::UpdateBotSettings => vec![
                Param { key: Key::Name, required: true },
                Param { key: Key::Values, required: true },
            ],
            Command::SetActiveBot => vec![
                Param { key: Key::Mode, required: true },
                Param { key: Key::Name, required: true },
            ],
            Command::InstallBotFromGithub => vec![
                Param { key: Key::Repo, required: true },
                Param { key: Key::AssetGlob, required: false },
                Param { key: Key::Name, required: false },
            ],
            Command::InstallBotFromZip => vec![
                Param { key: Key::ZipPath, required: true },
                Param { key: Key::Name, required: false },
            ],
            Command::SyncBotDeps => vec![
                Param { key: Key::Name, required: true },
                Param { key: Key::Force, required: true },
            ],
            Command::DownloadChromeForTesting => vec![Param { key: Key::Channel, required: false }],
            Command::RemoveChromeForTesting => vec![Param { key: Key::Version, required: true }],
            Command::OpenLogFolder => vec![Param { key: Key::Session, required: false }],
            Command::OpenExternalUrl => vec![Param { key: Key::Url, required: true }],
            Command::ReadLogSession
            | Command::ReadInspector => vec![Param { key: Key::Req, required: true }],
            Command::ComputeBotHoraScore => vec![
                Param { key: Key::Actor, required: true },
                Param { key: Key::IsTsumo, required: true },
            ],
            Command::ListGameHistory => vec![
                Param { key: Key::Filter, required: false },
                Param { key: Key::Limit, required: false },
                Param { key: Key::Offset, required: false },
            ],
            Command::GetGameHistoryRecord
            | Command::GetGameHistoryEvents
            | Command::DeleteGameHistoryEntry => vec![Param { key: Key::Id, required: true }],
            Command::NativeApiRedeem => vec![
                Param { key: Key::BaseUrl, required: true },
                Param { key: Key::Code, required: true },
                Param { key: Key::Proxy, required: false },
                Param { key: Key::Email, required: false },
                Param { key: Key::RenewKey, required: false },
            ],
            Command::NativeApiKeyStatus
            | Command::NativeApiModels
            | Command::NativeApiListShares => vec![
                Param { key: Key::BaseUrl, required: true },
                Param { key: Key::Key, required: true },
                Param { key: Key::Proxy, required: false },
            ],
            Command::NativeApiHealth => vec![
                Param { key: Key::BaseUrl, required: true },
                Param { key: Key::Proxy, required: false },
            ],
            Command::NativeApiReviewHistoryGame => vec![
                Param { key: Key::BaseUrl, required: true },
                Param { key: Key::Key, required: true },
                Param { key: Key::Id, required: true },
                Param { key: Key::Proxy, required: false },
                Param { key: Key::Model, required: false },
            ],
            Command::NativeApiReviewStatus
            | Command::NativeApiReviewShare => vec![
                Param { key: Key::BaseUrl, required: true },
                Param { key: Key::Key, required: true },
                Param { key: Key::ReviewId, required: true },
                Param { key: Key::Proxy, required: false },
            ],
            Command::NativeApiRevokeShare => vec![
                Param { key: Key::BaseUrl, required: true },
                Param { key: Key::Key, required: true },
                Param { key: Key::ShareId, required: true },
                Param { key: Key::Proxy, required: false },
            ],
            Command::NativeApiCreateOrder
            | Command::NativeApiCreateCheckout => vec![
                Param { key: Key::BaseUrl, required: true },
                Param { key: Key::Product, required: true },
                Param { key: Key::Redeem, required: true },
                Param { key: Key::Proxy, required: false },
            ],
            Command::NativeApiOrderResult => vec![
                Param { key: Key::BaseUrl, required: true },
                Param { key: Key::OrderId, required: true },
                Param { key: Key::Claim, required: true },
                Param { key: Key::Proxy, required: false },
            ],
            Command::NativeApiCreateSubscription => vec![
                Param { key: Key::BaseUrl, required: true },
                Param { key: Key::Product, required: true },
                Param { key: Key::Proxy, required: false },
            ],
            Command::NativeApiSubscriptionResult => vec![
                Param { key: Key::BaseUrl, required: true },
                Param { key: Key::SubscriptionId, required: true },
                Param { key: Key::Claim, required: true },
                Param { key: Key::Proxy, required: false },
            ],
            Command::NativeApiCheckoutResult => vec![
                Param { key: Key::BaseUrl, required: true },
                Param { key: Key::CheckoutId, required: true },
                Param { key: Key::Claim, required: true },
                Param { key: Key::Proxy, required: false },
            ],
        }
    }
}

/// The server's name of an argument.
pub open spec fn snake_name(key: Key) -> Seq<char> {
    match key {
        Key::NewConfig => "new_config"@,
        Key::Enabled => "enabled"@,
        Key::RemainingGames => "remaining_games"@,
        Key::Name => "name"@,
        Key::Values => "values"@,
        Key::Mode => "mode"@,
        Key::Repo => "repo"@,
        Key::AssetGlob => "asset_glob"@,
        Key::ZipPath => "zip_path"@,
        Key::Force => "force"@,
        Key::Channel => "channel"@,
        Key::Version => "version"@,
        Key::Session => "session"@,
        Key::Url => "url"@,
        Key::Req => "req"@,
        Key::Actor => "actor"@,
        Key::IsTsumo => "is_tsumo"@,
        Key::Filter => "filter"@,
        Key::Limit => "limit"@,
        Key::Offset => "offset"@,
        Key::Id => "id"@,
        Key::BaseUrl => "base_url"@,
        Key::Code => "code"@,
        Key::Proxy => "proxy"@,
        Key::Email => "email"@,
        Key::RenewKey => "renew_key"@,
        Key::Key => "key"@,
        Key::Model => "model"@,
        Key::ReviewId => "review_id"@,
        Key::ShareId => "share_id"@,
        Key::Product => "product"@,
        Key::Redeem => "redeem"@,
        Key::OrderId => "order_id"@,
        Key::Claim => "claim"@,
        Key::SubscriptionId => "subscription_id"@,
        Key::CheckoutId => "checkout_id"@,
    }
}

/// The browser's name of an argument. Most have only the server's.
pub open spec fn camel_name(key: Key) -> Seq<char> {
    match key {
        Key::NewConfig => "newConfig"@,
        Key::ZipPath => "zipPath"@,
        Key::IsTsumo => "isTsumo"@,
        _ => snake_name(key),
    }
}

/// How an argument is read.
pub open spec fn kind_of(key: Key) -> Kind {
    match key {
        Key::Enabled | Key::Force | Key::Redeem => Kind::Flag,
        Key::RemainingGames | Key::Limit | Key::Offset => Kind::Count,
        Key::NewConfig | Key::Req | Key::Actor | Key::IsTsumo | Key::Filter => Kind::Document,
        Key::Values => Kind::Members,
        _ => Kind::Text,
    }
}

impl Key {
    /// The server's name of the argument.
    pub fn snake(self) -> (name: &'static str)
        ensures
            name@ == snake_name(self),
    {
        match self {
            Key::NewConfig => "new_config",
            Key::Enabled => "enabled",
            Key::RemainingGames => "remaining_games",
            Key::Name => "name",
            Key::Values => "values",
            Key::Mode => "mode",
            Key::Repo => "repo",
            Key::AssetGlob => "asset_glob",
            Key::ZipPath => "zip_path",
            Key::Force => "force",
            Key::Channel => "channel",
            Key::Version => "version",
            Key::Session => "session",
            Key::Url => "url",
            Key::Req => "req",
            Key::Actor => "actor",
            Key::IsTsumo => "is_tsumo",
            Key::Filter => "filter",
            Key::Limit => "limit",
            Key::Offset => "offset",
            Key::Id => "id",
            Key::BaseUrl => "base_url",
            Key::Code => "code",
            Key::Proxy => "proxy",
            Key::Email => "email",
            Key::RenewKey => "renew_key",
            Key::Key => "key",
            Key::Model => "model",
            Key::ReviewId => "review_id",
            Key::ShareId => "share_id",
            Key::Product => "product",
            Key::Redeem => "redeem",
            Key::OrderId => "order_id",
            Key::Claim => "claim",
            Key::SubscriptionId => "subscription_id",
            Key::CheckoutId => "checkout_id",
        }
    }

    /// The browser's name of the argument.
    pub fn camel(self) -> (name: &'static str)
        ensures
            name@ == camel_name(self),
    {
        match self {
            Key::NewConfig => "newConfig",
            Key::ZipPath => "zipPath",
            Key::IsTsumo => "isTsumo",
            _ => self.snake(),
        }
    }

    /// How the argument is read.
    pub fn kind(self) -> (kind: Kind)
        ensures
            kind == kind_of(self),
    {
        match self {
            Key::Enabled | Key::Force | Key::Redeem => Kind::Flag,
            Key::RemainingGames | Key::Limit | Key::Offset => Kind::Count,
            Key::NewConfig | Key::Req | Key::Actor | Key::IsTsumo | Key::Filter => Kind::Document,
            Key::Values => Kind::Members,
            _ => Kind::Text,
        }
    }
}

/// What the check of a document says against it.
#[derive(Debug)]
pub struct Complaint {
    pub key: Key,
    pub text: String,
}

/// What is said against an argument: the first complaint about it.
pub open spec fn complaint_about(complaints: Seq<Complaint>, key: Key) -> Option<Seq<char>>
    decreases complaints.len(),
{
    if complaints.len() == 0 {
        None
    } else if complaints[0].key == key {
        Some(complaints[0].text@)
    } else {
        complaint_about(complaints.skip(1), key)
    }
}

/// What an argument of a request is read as.
pub open spec fn param_read(
    param: Param,
    args: serde_json::Value,
    complaints: Seq<Complaint>,
) -> Result<Option<ArgumentView>, Seq<char>> {
    let camel = camel_name(param.key);
    let snake = snake_name(param.key);
    let kind = kind_of(param.key);
    let complaint = complaint_about(complaints, param.key);
    if param.required {
        match field_read(args, camel, snake, kind, complaint) {
            Ok(a) => Ok(Some(a)),
            Err(text) => Err(text),
        }
    } else {
        optional_read(args, camel, snake, kind, complaint)
    }
}

/// What the arguments of a request are read as, one after the other. The first
/// that cannot be read ends it.
pub open spec fn params_read(
    params: Seq<Param>,
    args: serde_json::Value,
    complaints: Seq<Complaint>,
) -> Result<Seq<Option<ArgumentView>>, Seq<char>>
    decreases params.len(),
{
    if params.len() == 0 {
        Ok(Seq::empty())
    } else {
        match params_read(params.drop_last(), args, complaints) {
            Err(text) => Err(text),
            Ok(before) => match param_read(params.last(), args, complaints) {
                Err(text) => Err(text),
                Ok(a) => Ok(before.push(a)),
            },
        }
    }
}

/// The view of a list of arguments.
pub open spec fn arguments_view(arguments: Seq<Option<Argument>>) -> Seq<Option<ArgumentView>> {
    arguments.map_values(|a: Option<Argument>| option_view(a))
}

/// The first argument that cannot be read decides what is answered, whatever
/// comes after it.
pub proof fn the_first_bad_argument_decides(
    params: Seq<Param>,
    first: int,
    args: serde_json::Value,
    complaints: Seq<Complaint>,
)
    requires
        0 <= first <= params.len(),
        params_read(params.take(first), args, complaints) is Err,
    ensures
        params_read(params, args, complaints) == params_read(params.take(first), args, complaints),
    decreases params.len(),
{
    if first < params.len() {
        assert(params.drop_last().take(first) =~= params.take(first));
        the_first_bad_argument_decides(params.drop_last(), first, args, complaints);
    } else {
        assert(params.take(first) =~= params);
    }
}

/// A call that can be made has an argument for each that the command takes, and
/// none that has to be there is left out.
pub proof fn calls_are_complete(
    params: Seq<Param>,
    args: serde_json::Value,
    complaints: Seq<Complaint>,
)
    ensures
        params_read(params, args, complaints) matches Ok(list) ==> {
            &&& list.len() == params.len()
            &&& forall|i: int|
                0 <= i < params.len() && (#[trigger] params[i]).required ==> list[i] is Some
        },
    decreases params.len(),
{
    if params.len() > 0 {
        calls_are_complete(params.drop_last(), args, complaints);
        if let Ok(list) = params_read(params, args, complaints) {
            assert forall|i: int| 0 <= i < params.len() && (#[trigger] params[i]).required implies list[i] is Some by {
                if i < params.len() - 1 {
                    assert(params.drop_last()[i] == params[i]);
                }
            }
        }
    }
}

/// What becomes of a request.
#[derive(Debug)]
pub enum Dispatch<'a> {
    /// There is no such command; this says so.
    Unknown(String),
    /// An argument is missing or cannot be read; this says which.
    Refused(String),
    /// The command is to be run with these arguments.
    Call(Command, Vec<Option<Argument<'a>>>),
}

/// The HTTP status for a command that there is not.
pub const STATUS_NOT_FOUND: u16 = 404;

/// The HTTP status for a request that cannot be met.
pub const STATUS_BAD_REQUEST: u16 = 400;

/// The HTTP status for a command that was run.
pub const STATUS_OK: u16 = 200;

/// What is said of a command that there is not.
pub open spec fn unknown_text(command: Seq<char>) -> Seq<char> {
    "unknown command "@ + command
}

fn find_complaint<'a>(complaints: &'a [Complaint], key: Key) -> (text: Option<&'a str>)
    ensures
        match text {
            Some(t) => complaint_about(complaints@, key) == Some(t@),
            None => complaint_about(complaints@, key) is None,
        },
{
    let mut i: usize = 0;
    assert(complaints@.skip(0) =~= complaints@);
    while i < complaints.len()
        invariant
            i <= complaints.len(),
            complaint_about(complaints@, key) == complaint_about(complaints@.skip(i as int), key),
        decreases complaints.len() - i,
    {
        assert(complaints@.skip(i as int).skip(1) =~= complaints@.skip(i + 1));
        if complaints[i].key == key {
            return Some(complaints[i].text.as_str());
        }
        i += 1;
    }
    None
}

fn read_param<'a>(param: Param, args: &'a serde_json::Value, complaints: &[Complaint]) -> (read:
    Result<Option<Argument<'a>>, String>)
    ensures
        match read {
            Ok(a) => param_read(param, *args, complaints@) == Ok::<
                Option<ArgumentView>,
                Seq<char>,
            >(option_view(a)),
            Err(m) => param_read(param, *args, complaints@) == Err::<
                Option<ArgumentView>,
                Seq<char>,
            >(m@),
        },
{
    let complaint = find_complaint(complaints, param.key);
    let camel = param.key.camel();
    let snake = param.key.snake();
    let kind = param.key.kind();
    if param.required {
        match field(args, camel, snake, kind, complaint) {
            Ok(a) => Ok(Some(a)),
            Err(text) => Err(text),
        }
    } else {
        optional(args, camel, snake, kind, complaint)
    }
}

/// Reads a request: finds its command and reads its arguments in order.
///
/// `complaints` is what the checks of the documents among the arguments say
/// against them. A document is an argument with a form of its own.
pub fn invoke<'a>(command: &str, args: &'a serde_json::Value, complaints: &[Complaint]) -> (d:
    Dispatch<'a>)
    ensures
        match command_named(command@) {
            None => d matches Dispatch::Unknown(m) && m@ == unknown_text(command@),
            Some(c) => match params_read(params_of(c), *args, complaints@) {
                Err(text) => d matches Dispatch::Refused(m) && m@ == text,
                Ok(list) => d matches Dispatch::Call(k, a) && k == c && arguments_view(a@) == list,
            },
        },
        dispatch_view(d) == dispatched(command@, *args, complaints@),
{
    let known = match Command::parse(command) {
        Some(c) => c,
        None => {
            let mut m = "unknown command ".to_owned();
            m.append(command);
            return Dispatch::Unknown(m);
        },
    };
    let params = known.params();
    let mut list: Vec<Option<Argument<'a>>> = Vec::new();
    let mut i: usize = 0;
    assert(arguments_view(list@) =~= Seq::empty());
    while i < params.len()
        invariant
            i <= params.len(),
            command_named(command@) == Some(known),
            params@ == params_of(known),
            params_read(params@.take(i as int), *args, complaints@) == Ok::<
                Seq<Option<ArgumentView>>,
                Seq<char>,
            >(arguments_view(list@)),
        decreases params.len() - i,
    {
        assert(params@.take(i + 1).drop_last() =~= params@.take(i as int));
        let ghost before = arguments_view(list@);
        match read_param(params[i], args, complaints) {
            Err(m) => {
                proof {
                    the_first_bad_argument_decides(params@, i + 1, *args, complaints@);
                }
                return Dispatch::Refused(m);
            },
            Ok(a) => {
                list.push(a);
                assert(arguments_view(list@) =~= before.push(option_view(a)));
            },
        }
        i += 1;
    }
    assert(params@.take(i as int) =~= params@);
    Dispatch::Call(known, list)
}

/// Why a command that was run failed, in the form of its own error and in words.
#[derive(Debug, PartialEq, Eq)]
pub struct Failure<V> {
    pub error: V,
    pub message: String,
}

/// An answer to a request. Only the parts that are there are sent, and the
/// status beside them.
#[derive(Debug, PartialEq, Eq)]
pub struct Reply<V> {
    pub status: u16,
    pub ok: bool,
    pub value: Option<V>,
    pub error: Option<V>,
    pub message: Option<String>,
}

/// The answer to a command that was run, by how it went.
pub open spec fn answered<V>(result: Result<V, Failure<V>>) -> Reply<V> {
    match result {
        Ok(value) => Reply {
            status: STATUS_OK,
            ok: true,
            value: Some(value),
            error: None,
            message: None,
        },
        Err(failure) => Reply {
            status: STATUS_BAD_REQUEST,
            ok: false,
            value: None,
            error: Some(failure.error),
            message: Some(failure.message),
        },
    }
}

/// The answer to a command that was run, by how it went.
pub fn answer<V>(result: Result<V, Failure<V>>) -> (reply: Reply<V>)
    ensures
        reply == answered(result),
{
    match result {
        Ok(value) => Reply {
            status: STATUS_OK,
            ok: true,
            value: Some(value),
            error: None,
            message: None,
        },
        Err(failure) => Reply {
            status: STATUS_BAD_REQUEST,
            ok: false,
            value: None,
            error: Some(failure.error),
            message: Some(failure.message),
        },
    }
}

/// A failure whose error is the very text that says so.
pub open spec fn plain_failure(text: String) -> Failure<String> {
    Failure { error: text, message: text }
}

/// The answer to a request that failed for the reason given.
pub fn refuse(text: String) -> (reply: Reply<String>)
    ensures
        reply == answered(Err::<String, Failure<String>>(plain_failure(text))),
{
    answer(Err(Failure { error: text.clone(), message: text }))
}

/// The answer to a request for a command that there is not. It names no error.
pub open spec fn not_found(text: String) -> Reply<String> {
    Reply {
        status: STATUS_NOT_FOUND,
        ok: false,
        value: None,
        error: None,
        message: Some(text),
    }
}

impl<'a> Dispatch<'a> {
    /// The command to run with its arguments, or the answer if there is none to
    /// run.
    pub fn resolve(self) -> (resolved: Result<
        (Command, Vec<Option<Argument<'a>>>),
        Reply<String>,
    >)
        ensures
            match self {
                Dispatch::Call(command, arguments) => resolved matches Ok(call) && call == (
                    command,
                    arguments,
                ),
                Dispatch::Refused(text) => resolved matches Err(reply) && reply == answered(
                    Err::<String, Failure<String>>(plain_failure(text)),
                ),
                Dispatch::Unknown(text) => resolved matches Err(reply) && reply == not_found(text),
            },
            match resolved {
                Ok((command, list)) => dispatch_view(self) == DispatchView::Call(
                    command,
                    arguments_view(list@),
                ),
                Err(reply) => refusal_status(dispatch_view(self)) == Some(reply.status),
            },
    {
        match self {
            Dispatch::Call(command, arguments) => Ok((command, arguments)),
            Dispatch::Refused(text) => Err(refuse(text)),
            Dispatch::Unknown(text) => Err(
                Reply {
                    status: STATUS_NOT_FOUND,
                    ok: false,
                    value: None,
                    error: None,
                    message: Some(text),
                },
            ),
        }
    }
}

/// An answer says that all went well exactly where its status does, and then it
/// has a value and nothing to complain of. Any other has a message.
pub proof fn answers_agree_with_their_status<V>(result: Result<V, Failure<V>>)
    ensures
        answered(result).ok <==> answered(result).status == STATUS_OK,
        answered(result).ok <==> answered(result).value is Some,
        answered(result).ok <==> answered(result).error is None,
        answered(result).ok <==> answered(result).message is None,
{
}

/// The name of a command.
pub open spec fn name_of(command: Command) -> Seq<char> {
    match command {
        Command::GetConfig => "get_config"@,
        Command::UpdateConfig => "update_config"@,
        Command::UpdateConfigPreservingControls => "update_config_preserving_controls"@,
        Command::UpdateAutoplayControls => "update_autoplay_controls"@,
        Command::ListBots => "list_bots"@,
        Command::GetBotSettings => "get_bot_settings"@,
        Command::UpdateBotSettings => "update_bot_settings"@,
        Command::SetActiveBot => "set_active_bot"@,
        Command::InstallBotFromGithub => "install_bot_from_github"@,
        Command::InstallBotFromZip => "install_bot_from_zip"@,
        Command::UpdateBotFromManifest => "update_bot_from_manifest"@,
        Command::SyncBotDeps => "sync_bot_deps"@,
        Command::StartCapture => "start_capture"@,
        Command::RestartCapture => "restart_capture"@,
        Command::StopCapture => "stop_capture"@,
        Command::DetectSystemChrome => "detect_system_chrome"@,
        Command::ListCftInstalled => "list_cft_installed"@,
        Command::DownloadChromeForTesting => "download_chrome_for_testing"@,
        Command::RemoveChromeForTesting => "remove_chrome_for_testing"@,
        Command::GetStatus => "get_status"@,
        Command::GetCaptureStatus => "get_capture_status"@,
        Command::GetLogDir => "get_log_dir"@,
        Command::OpenLogFolder => "open_log_folder"@,
        Command::OpenExternalUrl => "open_external_url"@,
        Command::ListLogSessions => "list_log_sessions"@,
        Command::ReadLogSession => "read_log_session"@,
        Command::ReadInspector => "read_inspector"@,
        Command::GetAnalysis => "get_analysis"@,
        Command::GetGameSnapshot => "get_game_snapshot"@,
        Command::ComputeBotHoraScore => "compute_bot_hora_score"@,
        Command::GetMahgenView => "get_mahgen_view"@,
        Command::DeleteBot => "delete_bot"@,
        Command::ListGameHistory => "list_game_history"@,
        Command::GetGameHistoryRecord => "get_game_history_record"@,
        Command::GetGameHistoryEvents => "get_game_history_events"@,
        Command::DeleteGameHistoryEntry => "delete_game_history_entry"@,
        Command::CheckForUpdate => "check_for_update"@,
        Command::ApplyUpdate => "apply_update"@,
        Command::NativeApiRedeem => "native_api_redeem"@,
        Command::NativeApiKeyStatus => "native_api_key_status"@,
        Command::NativeApiModels => "native_api_models"@,
        Command::NativeApiHealth => "native_api_health"@,
        Command::NativeApiReviewHistoryGame => "native_api_review_history_game"@,
        Command::NativeApiReviewStatus => "native_api_review_status"@,
        Command::NativeApiReviewShare => "native_api_review_share"@,
        Command::NativeApiListShares => "native_api_list_shares"@,
        Command::NativeApiRevokeShare => "native_api_revoke_share"@,
        Command::NativeApiCreateOrder => "native_api_create_order"@,
        Command::NativeApiOrderResult => "native_api_order_result"@,
        Command::NativeApiCreateSubscription => "native_api_create_subscription"@,
        Command::NativeApiSubscriptionResult => "native_api_subscription_result"@,
        Command::NativeApiCreateCheckout => "native_api_create_checkout"@,
        Command::NativeApiCheckoutResult => "native_api_checkout_result"@,
    }
}

/// Every command is found by its own name, and by no other text.
pub proof fn commands_have_their_names(command: Command, name: Seq<char>)
    ensures
        command_named(name) == Some(command) <==> name == name_of(command),
        command_named(name) is None <==> forall|c: Command| name != #[trigger] name_of(c),
{
    assert forall|c: Command| command_named(#[trigger] name_of(c)) == Some(c) by {
        distinct_names(c);
    }
    if let Some(c) = command_named(name) {
        assert(name == name_of(c));
    }
}

#[verifier::rlimit(100)]
proof fn distinct_names(command: Command)
    ensures
        command_named(name_of(command)) == Some(command),
{
    reveal_strlit("get_config");
    reveal_strlit("update_config");
    reveal_strlit("update_config_preserving_controls");
    reveal_strlit("update_autoplay_controls");
    reveal_strlit("list_bots");
    reveal_strlit("get_bot_settings");
    reveal_strlit("update_bot_settings");
    reveal_strlit("set_active_bot");
    reveal_strlit("install_bot_from_github");
    reveal_strlit("install_bot_from_zip");
    reveal_strlit("update_bot_from_manifest");
    reveal_strlit("sync_bot_deps");
    reveal_strlit("start_capture");
    reveal_strlit("restart_capture");
    reveal_strlit("stop_capture");
    reveal_strlit("detect_system_chrome");
    reveal_strlit("list_cft_installed");
    reveal_strlit("download_chrome_for_testing");
    reveal_strlit("remove_chrome_for_testing");
    reveal_strlit("get_status");
    reveal_strlit("get_capture_status");
    reveal_strlit("get_log_dir");
    reveal_strlit("open_log_folder");
    reveal_strlit("open_external_url");
    reveal_strlit("list_log_sessions");
    reveal_strlit("read_log_session");
    reveal_strlit("read_inspector");
    reveal_strlit("get_analysis");
    reveal_strlit("get_game_snapshot");
    reveal_strlit("compute_bot_hora_score");
    reveal_strlit("get_mahgen_view");
    reveal_strlit("delete_bot");
    reveal_strlit("list_game_history");
    reveal_strlit("get_game_history_record");
    reveal_strlit("get_game_history_events");
    reveal_strlit("delete_game_history_entry");
    reveal_strlit("check_for_update");
    reveal_strlit("apply_update");
    reveal_strlit("native_api_redeem");
    reveal_strlit("native_api_key_status");
    reveal_strlit("native_api_models");
    reveal_strlit("native_api_health");
    reveal_strlit("native_api_review_history_game");
    reveal_strlit("native_api_review_status");
    reveal_strlit("native_api_review_share");
    reveal_strlit("native_api_list_shares");
    reveal_strlit("native_api_revoke_share");
    reveal_strlit("native_api_create_order");
    reveal_strlit("native_api_order_result");
    reveal_strlit("native_api_create_subscription");
    reveal_strlit("native_api_subscription_result");
    reveal_strlit("native_api_create_checkout");
    reveal_strlit("native_api_checkout_result");
    assert("get_config"@.len() == 10);
    assert("update_config"@.len() == 13);
    assert("update_config_preserving_controls"@.len() == 33);
    assert("update_autoplay_controls"@.len() == 24);
    assert("list_bots"@.len() == 9);
    assert("get_bot_settings"@.len() == 16);
    assert("update_bot_settings"@.len() == 19);
    assert("set_active_bot"@.len() == 14);
    assert("install_bot_from_github"@.len() == 23);
    assert("install_bot_from_zip"@.len() == 20);
    assert("update_bot_from_manifest"@.len() == 24);
    assert("sync_bot_deps"@.len() == 13);
    assert("start_capture"@.len() == 13);
    assert("restart_capture"@.len() == 15);
    assert("stop_capture"@.len() == 12);
    assert("detect_system_chrome"@.len() == 20);
    assert("list_cft_installed"@.len() == 18);
    assert("download_chrome_for_testing"@.len() == 27);
    assert("remove_chrome_for_testing"@.len() == 25);
    assert("get_status"@.len() == 10);
    assert("get_capture_status"@.len() == 18);
    assert("get_log_dir"@.len() == 11);
    assert("open_log_folder"@.len() == 15);
    assert("open_external_url"@.len() == 17);
    assert("list_log_sessions"@.len() == 17);
    assert("read_log_session"@.len() == 16);
    assert("read_inspector"@.len() == 14);
    assert("get_analysis"@.len() == 12);
    assert("get_game_snapshot"@.len() == 17);
    assert("compute_bot_hora_score"@.len() == 22);
    assert("get_mahgen_view"@.len() == 15);
    assert("delete_bot"@.len() == 10);
    assert("list_game_history"@.len() == 17);
    assert("get_game_history_record"@.len() == 23);
    assert("get_game_history_events"@.len() == 23);
    assert("delete_game_history_entry"@.len() == 25);
    assert("check_for_update"@.len() == 16);
    assert("apply_update"@.len() == 12);
    assert("native_api_redeem"@.len() == 17);
    assert("native_api_key_status"@.len() == 21);
    assert("native_api_models"@.len() == 17);
    assert("native_api_health"@.len() == 17);
    assert("native_api_review_history_game"@.len() == 30);
    assert("native_api_review_status"@.len() == 24);
    assert("native_api_review_share"@.len() == 23);
    assert("native_api_list_shares"@.len() == 22);
    assert("native_api_revoke_share"@.len() == 23);
    assert("native_api_create_order"@.len() == 23);
    assert("native_api_order_result"@.len() == 23);
    assert("native_api_create_subscription"@.len() == 30);
    assert("native_api_subscription_result"@.len() == 30);
    assert("native_api_create_checkout"@.len() == 26);
    assert("native_api_checkout_result"@.len() == 26);
    assert("get_config"@[4] == 'c');
    assert("get_status"@[4] == 's');
    assert("delete_bot"@[4] == 't');
    assert("stop_capture"@[0] == 's');
    assert("get_analysis"@[0] == 'g');
    assert("apply_update"@[0] == 'a');
    assert("update_config"@[1] == 'p');
    assert("sync_bot_deps"@[1] == 'y');
    assert("start_capture"@[1] == 't');
    assert("set_active_bot"@[0] == 's');
    assert("read_inspector"@[0] == 'r');
    assert("restart_capture"@[0] == 'r');
    assert("open_log_folder"@[0] == 'o');
    assert("get_mahgen_view"@[0] == 'g');
    assert("get_bot_settings"@[0] == 'g');
    assert("read_log_session"@[0] == 'r');
    assert("check_for_update"@[0] == 'c');
    assert("open_external_url"@[0] == 'o');
    assert("open_external_url"@[11] == 'a');
    assert("list_log_sessions"@[11] == 's');
    assert("get_game_snapshot"@[0] == 'g');
    assert("get_game_snapshot"@[11] == 'a');
    assert("list_game_history"@[11] == 'i');
    assert("native_api_redeem"@[11] == 'r');
    assert("native_api_models"@[11] == 'm');
    assert("native_api_health"@[11] == 'h');
    assert("list_cft_installed"@[0] == 'l');
    assert("get_capture_status"@[0] == 'g');
    assert("install_bot_from_zip"@[0] == 'i');
    assert("detect_system_chrome"@[0] == 'd');
    assert("compute_bot_hora_score"@[0] == 'c');
    assert("native_api_list_shares"@[0] == 'n');
    assert("install_bot_from_github"@[15] == 'm');
    assert("get_game_history_record"@[15] == 'y');
    assert("get_game_history_record"@[17] == 'r');
    assert("get_game_history_events"@[15] == 'y');
    assert("get_game_history_events"@[17] == 'e');
    assert("native_api_review_share"@[15] == 'e');
    assert("native_api_revoke_share"@[15] == 'k');
    assert("native_api_create_order"@[15] == 't');
    assert("native_api_order_result"@[15] == 'r');
    assert("update_autoplay_controls"@[8] == 'u');
    assert("update_bot_from_manifest"@[8] == 'o');
    assert("native_api_review_status"@[8] == 'p');
    assert("remove_chrome_for_testing"@[0] == 'r');
    assert("delete_game_history_entry"@[0] == 'd');
    assert("native_api_create_checkout"@[12] == 'r');
    assert("native_api_checkout_result"@[12] == 'h');
    assert("native_api_review_history_game"@[11] == 'r');
    assert("native_api_create_subscription"@[11] == 'c');
    assert("native_api_subscription_result"@[11] == 's');
}

/// For a command and an argument: nothing if the command does not take it, and
/// otherwise whether it has to be there.
pub open spec fn taken_by(key: Key, command: Command) -> Option<bool> {
    match key {
        Key::NewConfig => match command {
            Command::UpdateConfig
            | Command::UpdateConfigPreservingControls => Some(true),
            _ => None,
        },
        Key::Enabled => match command {
            Command::UpdateAutoplayControls => Some(false),
            _ => None,
        },
        Key::RemainingGames => match command {
            Command::UpdateAutoplayControls => Some(false),
            _ => None,
        },
        Key::Mode => match command {
            Command::SetActiveBot => Some(true),
            _ => None,
        },
        Key::Repo => match command {
            Command::InstallBotFromGithub => Some(true),
            _ => None,
        },
        Key::AssetGlob => match command {
            Command::InstallBotFromGithub => Some(false),
            _ => None,
        },
        Key::ZipPath => match command {
            Command::InstallBotFromZip => Some(true),
            _ => None,
        },
        Key::Name => match command {
            Command::GetBotSettings
            | Command::UpdateBotSettings
            | Command::SetActiveBot
            | Command::UpdateBotFromManifest
            | Command::SyncBotDeps
            | Command::DeleteBot => Some(true),
            Command::InstallBotFromGithub
            | Command::InstallBotFromZip => Some(false),
            _ => None,
        },
        Key::Values => match command {
            Command::UpdateBotSettings => Some(true),
            _ => None,
        },
        Key::Force => match command {
            Command::SyncBotDeps => Some(true),
            _ => None,
        },
        Key::Channel => match command {
            Command::DownloadChromeForTesting => Some(false),
            _ => None,
        },
        Key::Version => match command {
            Command::RemoveChromeForTesting => Some(true),
            _ => None,
        },
        Key::Session => match command {
            Command::OpenLogFolder => Some(false),
            _ => None,
        },
        Key::Url => match command {
            Command::OpenExternalUrl => Some(true),
            _ => None,
        },
        Key::Req => match command {
            Command::ReadLogSession
            | Command::ReadInspector => Some(true),
            _ => None,
        },
        Key::Actor => match command {
            Command::ComputeBotHoraScore => Some(true),
            _ => None,
        },
        Key::IsTsumo => match command {
            Command::ComputeBotHoraScore => Some(true),
            _ => None,
        },
        Key::Filter => match command {
            Command::ListGameHistory => Some(false),
            _ => None,
        },
        Key::Limit => match command {
            Command::ListGameHistory => Some(false),
            _ => None,
        },
        Key::Offset => match command {
            Command::ListGameHistory => Some(false),
            _ => None,
        },
        Key::BaseUrl => match command {
            Command::NativeApiRedeem
            | Command::NativeApiKeyStatus
            | Command::NativeApiModels
            | Command::NativeApiHealth
            | Command::NativeApiReviewHistoryGame
            | Command::NativeApiReviewStatus
            | Command::NativeApiReviewShare
            | Command::NativeApiListShares
            | Command::NativeApiRevokeShare
            | Command::NativeApiCreateOrder
            | Command::NativeApiOrderResult
            | Command::NativeApiCreateSubscription
            | Command::NativeApiSubscriptionResult
            | Command::NativeApiCreateCheckout
            | Command::NativeApiCheckoutResult => Some(true),
            _ => None,
        },
        Key::Code => match command {
            Command::NativeApiRedeem => Some(true),
            _ => None,
        },
        Key::Key => match command {
            Command::NativeApiKeyStatus
            | Command::NativeApiModels
            | Command::NativeApiReviewHistoryGame
            | Command::NativeApiReviewStatus
            | Command::NativeApiReviewShare
            | Command::NativeApiListShares
            | Command::NativeApiRevokeShare => Some(true),
            _ => None,
        },
        Key::Id => match command {
            Command::GetGameHistoryRecord
            | Command::GetGameHistoryEvents
            | Command::DeleteGameHistoryEntry
            | Command::NativeApiReviewHistoryGame => Some(true),
            _ => None,
        },
        Key::ReviewId => match command {
            Command::NativeApiReviewStatus
            | Command::NativeApiReviewShare => Some(true),
            _ => None,
        },
        Key::ShareId => match command {
            Command::NativeApiRevokeShare => Some(true),
            _ => None,
        },
        Key::Product => match command {
            Command::NativeApiCreateOrder
            | Command::NativeApiCreateSubscription
            | Command::NativeApiCreateCheckout => Some(true),
            _ => None,
        },
        Key::Redeem => match command {
            Command::NativeApiCreateOrder
            | Command::NativeApiCreateCheckout => Some(true),
            _ => None,
        },
        Key::OrderId => match command {
            Command::NativeApiOrderResult => Some(true),
            _ => None,
        },
        Key::SubscriptionId => match command {
            Command::NativeApiSubscriptionResult => Some(true),
            _ => None,
        },
        Key::CheckoutId => match command {
            Command::NativeApiCheckoutResult => Some(true),
            _ => None,
        },
        Key::Claim => match command {
            Command::NativeApiOrderResult
            | Command::NativeApiSubscriptionResult
            | Command::NativeApiCheckoutResult => Some(true),
            _ => None,
        },
        Key::Proxy => match command {
            Command::NativeApiRedeem
            | Command::NativeApiKeyStatus
            | Command::NativeApiModels
            | Command::NativeApiHealth
            | Command::NativeApiReviewHistoryGame
            | Command::NativeApiReviewStatus
            | Command::NativeApiReviewShare
            | Command::NativeApiListShares
            | Command::NativeApiRevokeShare
            | Command::NativeApiCreateOrder
            | Command::NativeApiOrderResult
            | Command::NativeApiCreateSubscription
            | Command::NativeApiSubscriptionResult
            | Command::NativeApiCreateCheckout
            | Command::NativeApiCheckoutResult => Some(false),
            _ => None,
        },
        Key::Email => match command {
            Command::NativeApiRedeem => Some(false),
            _ => None,
        },
        Key::RenewKey => match command {
            Command::NativeApiRedeem => Some(false),
            _ => None,
        },
        Key::Model => match command {
            Command::NativeApiReviewHistoryGame => Some(false),
            _ => None,
        },
    }
}

/// Where an argument stands in the one order in which all commands read theirs.
pub open spec fn place_of(key: Key) -> int {
    match key {
        Key::NewConfig => 0,
        Key::Enabled => 1,
        Key::RemainingGames => 2,
        Key::Mode => 3,
        Key::Repo => 4,
        Key::AssetGlob => 5,
        Key::ZipPath => 6,
        Key::Name => 7,
        Key::Values => 8,
        Key::Force => 9,
        Key::Channel => 10,
        Key::Version => 11,
        Key::Session => 12,
        Key::Url => 13,
        Key::Req => 14,
        Key::Actor => 15,
        Key::IsTsumo => 16,
        Key::Filter => 17,
        Key::Limit => 18,
        Key::Offset => 19,
        Key::BaseUrl => 20,
        Key::Code => 21,
        Key::Key => 22,
        Key::Id => 23,
        Key::ReviewId => 24,
        Key::ShareId => 25,
        Key::Product => 26,
        Key::Redeem => 27,
        Key::OrderId => 28,
        Key::SubscriptionId => 29,
        Key::CheckoutId => 30,
        Key::Claim => 31,
        Key::Proxy => 32,
        Key::Email => 33,
        Key::RenewKey => 34,
        Key::Model => 35,
    }
}

/// Each argument is taken by the commands that it is for and by no others. It has
/// to be there for the same ones, and no command takes one twice. All commands read
/// theirs in the same order.
pub proof fn arguments_belong_to_their_commands(command: Command)
    ensures
        forall|i: int|
            0 <= i < params_of(command).len() ==> taken_by(
                (#[trigger] params_of(command)[i]).key,
                command,
            ) == Some(params_of(command)[i].required),
        forall|key: Key|
            (#[trigger] taken_by(key, command)) is Some ==> exists|i: int|
                0 <= i < params_of(command).len() && (#[trigger] params_of(command)[i]).key == key,
        forall|i: int, j: int|
            0 <= i < j < params_of(command).len() ==> place_of(
                (#[trigger] params_of(command)[i]).key,
            ) < place_of((#[trigger] params_of(command)[j]).key),
{
    let p = params_of(command);
    match command {
        Command::GetConfig
        | Command::ListBots
        | Command::StartCapture
        | Command::RestartCapture
        | Command::StopCapture
        | Command::DetectSystemChrome
        | Command::ListCftInstalled
        | Command::GetStatus
        | Command::GetCaptureStatus
        | Command::GetLogDir
        | Command::ListLogSessions
        | Command::GetAnalysis
        | Command::GetGameSnapshot
        | Command::GetMahgenView
        | Command::CheckForUpdate
        | Command::ApplyUpdate => {
            assert(p.len() == 0);
        },
        Command::UpdateConfig
        | Command::UpdateConfigPreservingControls => {
            assert(p.len() == 1);
            assert(p[0] == needed(Key::NewConfig));
        },
        Command::UpdateAutoplayControls => {
            assert(p.len() == 2);
            assert(p[0] == allowed(Key::Enabled));
            assert(p[1] == allowed(Key::RemainingGames));
        },
        Command::GetBotSettings
        | Command::UpdateBotFromManifest
        | Command::DeleteBot => {
            assert(p.len() == 1);
            assert(p[0] == needed(Key::Name));
        },
        Command::UpdateBotSettings => {
            assert(p.len() == 2);
            assert(p[0] == needed(Key::Name));
            assert(p[1] == needed(Key::Values));
        },
        Command::SetActiveBot => {
            assert(p.len() == 2);
            assert(p[0] == needed(Key::Mode));
            assert(p[1] == needed(Key::Name));
        },
        Command::InstallBotFromGithub => {
            assert(p.len() == 3);
            assert(p[0] == needed(Key::Repo));
            assert(p[1] == allowed(Key::AssetGlob));
            assert(p[2] == allowed(Key::Name));
        },
        Command::InstallBotFromZip => {
            assert(p.len() == 2);
            assert(p[0] == needed(Key::ZipPath));
            assert(p[1] == allowed(Key::Name));
        },
        Command::SyncBotDeps => {
            assert(p.len() == 2);
            assert(p[0] == needed(Key::Name));
            assert(p[1] == needed(Key::Force));
        },
        Command::DownloadChromeForTesting => {
            assert(p.len() == 1);
            assert(p[0] == allowed(Key::Channel));
        },
        Command::RemoveChromeForTesting => {
            assert(p.len() == 1);
            assert(p[0] == needed(Key::Version));
        },
        Command::OpenLogFolder => {
            assert(p.len() == 1);
            assert(p[0] == allowed(Key::Session));
        },
        Command::OpenExternalUrl => {
            assert(p.len() == 1);
            assert(p[0] == needed(Key::Url));
        },
        Command::ReadLogSession
        | Command::ReadInspector => {
            assert(p.len() == 1);
            assert(p[0] == needed(Key::Req));
        },
        Command::ComputeBotHoraScore => {
            assert(p.len() == 2);
            assert(p[0] == needed(Key::Actor));
            assert(p[1] == needed(Key::IsTsumo));
        },
        Command::ListGameHistory => {
            assert(p.len() == 3);
            assert(p[0] == allowed(Key::Filter));
            assert(p[1] == allowed(Key::Limit));
            assert(p[2] == allowed(Key::Offset));
        },
        Command::GetGameHistoryRecord
        | Command::GetGameHistoryEvents
        | Command::DeleteGameHistoryEntry => {
            assert(p.len() == 1);
            assert(p[0] == needed(Key::Id));
        },
        Command::NativeApiRedeem => {
            assert(p.len() == 5);
            assert(p[0] == needed(Key::BaseUrl));
            assert(p[1] == needed(Key::Code));
            assert(p[2] == allowed(Key::Proxy));
            assert(p[3] == allowed(Key::Email));
            assert(p[4] == allowed(Key::RenewKey));
        },
        Command::NativeApiKeyStatus
        | Command::NativeApiModels
        | Command::NativeApiListShares => {
            assert(p.len() == 3);
            assert(p[0] == needed(Key::BaseUrl));
            assert(p[1] == needed(Key::Key));
            assert(p[2] == allowed(Key::Proxy));
        },
        Command::NativeApiHealth => {
            assert(p.len() == 2);
            assert(p[0] == needed(Key::BaseUrl));
            assert(p[1] == allowed(Key::Proxy));
        },
        Command::NativeApiReviewHistoryGame => {
            assert(p.len() == 5);
            assert(p[0] == needed(Key::BaseUrl));
            assert(p[1] == needed(Key::Key));
            assert(p[2] == needed(Key::Id));
            assert(p[3] == allowed(Key::Proxy));
            assert(p[4] == allowed(Key::Model));
        },
        Command::NativeApiReviewStatus
        | Command::NativeApiReviewShare => {
            assert(p.len() == 4);
            assert(p[0] == needed(Key::BaseUrl));
            assert(p[1] == needed(Key::Key));
            assert(p[2] == needed(Key::ReviewId));
            assert(p[3] == allowed(Key::Proxy));
        },
        Command::NativeApiRevokeShare => {
            assert(p.len() == 4);
            assert(p[0] == needed(Key::BaseUrl));
            assert(p[1] == needed(Key::Key));
            assert(p[2] == needed(Key::ShareId));
            assert(p[3] == allowed(Key::Proxy));
        },
        Command::NativeApiCreateOrder
        | Command::NativeApiCreateCheckout => {
            assert(p.len() == 4);
            assert(p[0] == needed(Key::BaseUrl));
            assert(p[1] == needed(Key::Product));
            assert(p[2] == needed(Key::Redeem));
            assert(p[3] == allowed(Key::Proxy));
        },
        Command::NativeApiOrderResult => {
            assert(p.len() == 4);
            assert(p[0] == needed(Key::BaseUrl));
            assert(p[1] == needed(Key::OrderId));
            assert(p[2] == needed(Key::Claim));
            assert(p[3] == allowed(Key::Proxy));
        },
        Command::NativeApiCreateSubscription => {
            assert(p.len() == 3);
            assert(p[0] == needed(Key::BaseUrl));
            assert(p[1] == needed(Key::Product));
            assert(p[2] == allowed(Key::Proxy));
        },
        Command::NativeApiSubscriptionResult => {
            assert(p.len() == 4);
            assert(p[0] == needed(Key::BaseUrl));
            assert(p[1] == needed(Key::SubscriptionId));
            assert(p[2] == needed(Key::Claim));
            assert(p[3] == allowed(Key::Proxy));
        },
        Command::NativeApiCheckoutResult => {
            assert(p.len() == 4);
            assert(p[0] == needed(Key::BaseUrl));
            assert(p[1] == needed(Key::CheckoutId));
            assert(p[2] == needed(Key::Claim));
            assert(p[3] == allowed(Key::Proxy));
        },
    }
}

/// The key of a name.
pub open spec fn key_named(name: Seq<char>) -> Option<Key> {
    if name == "new_config"@ {
        Some(Key::NewConfig)
    } else if name == "enabled"@ {
        Some(Key::Enabled)
    } else if name == "remaining_games"@ {
        Some(Key::RemainingGames)
    } else if name == "name"@ {
        Some(Key::Name)
    } else if name == "values"@ {
        Some(Key::Values)
    } else if name == "mode"@ {
        Some(Key::Mode)
    } else if name == "repo"@ {
        Some(Key::Repo)
    } else if name == "asset_glob"@ {
        Some(Key::AssetGlob)
    } else if name == "zip_path"@ {
        Some(Key::ZipPath)
    } else if name == "force"@ {
        Some(Key::Force)
    } else if name == "channel"@ {
        Some(Key::Channel)
    } else if name == "version"@ {
        Some(Key::Version)
    } else if name == "session"@ {
        Some(Key::Session)
    } else if name == "url"@ {
        Some(Key::Url)
    } else if name == "req"@ {
        Some(Key::Req)
    } else if name == "actor"@ {
        Some(Key::Actor)
    } else if name == "is_tsumo"@ {
        Some(Key::IsTsumo)
    } else if name == "filter"@ {
        Some(Key::Filter)
    } else if name == "limit"@ {
        Some(Key::Limit)
    } else if name == "offset"@ {
        Some(Key::Offset)
    } else if name == "id"@ {
        Some(Key::Id)
    } else if name == "base_url"@ {
        Some(Key::BaseUrl)
    } else if name == "code"@ {
        Some(Key::Code)
    } else if name == "proxy"@ {
        Some(Key::Proxy)
    } else if name == "email"@ {
        Some(Key::Email)
    } else if name == "renew_key"@ {
        Some(Key::RenewKey)
    } else if name == "key"@ {
        Some(Key::Key)
    } else if name == "model"@ {
        Some(Key::Model)
    } else if name == "review_id"@ {
        Some(Key::ReviewId)
    } else if name == "share_id"@ {
        Some(Key::ShareId)
    } else if name == "product"@ {
        Some(Key::Product)
    } else if name == "redeem"@ {
        Some(Key::Redeem)
    } else if name == "order_id"@ {
        Some(Key::OrderId)
    } else if name == "claim"@ {
        Some(Key::Claim)
    } else if name == "subscription_id"@ {
        Some(Key::SubscriptionId)
    } else if name == "checkout_id"@ {
        Some(Key::CheckoutId)
    } else {
        None
    }
}

/// Every argument is known by its own name. In the browser those of the new
/// settings, of the path of an archive and of a win by draw are written without
/// underscores, and all others alike.
#[verifier::rlimit(60)]
pub proof fn arguments_have_their_names(key: Key)
    ensures
        key_named(snake_name(key)) == Some(key),
        key is NewConfig ==> camel_name(key) == "newConfig"@,
        key is ZipPath ==> camel_name(key) == "zipPath"@,
        key is IsTsumo ==> camel_name(key) == "isTsumo"@,
        !(key is NewConfig || key is ZipPath || key is IsTsumo) ==> camel_name(key) == snake_name(
            key,
        ),
{
    reveal_strlit("new_config");
    reveal_strlit("enabled");
    reveal_strlit("remaining_games");
    reveal_strlit("name");
    reveal_strlit("values");
    reveal_strlit("mode");
    reveal_strlit("repo");
    reveal_strlit("asset_glob");
    reveal_strlit("zip_path");
    reveal_strlit("force");
    reveal_strlit("channel");
    reveal_strlit("version");
    reveal_strlit("session");
    reveal_strlit("url");
    reveal_strlit("req");
    reveal_strlit("actor");
    reveal_strlit("is_tsumo");
    reveal_strlit("filter");
    reveal_strlit("limit");
    reveal_strlit("offset");
    reveal_strlit("id");
    reveal_strlit("base_url");
    reveal_strlit("code");
    reveal_strlit("proxy");
    reveal_strlit("email");
    reveal_strlit("renew_key");
    reveal_strlit("key");
    reveal_strlit("model");
    reveal_strlit("review_id");
    reveal_strlit("share_id");
    reveal_strlit("product");
    reveal_strlit("redeem");
    reveal_strlit("order_id");
    reveal_strlit("claim");
    reveal_strlit("subscription_id");
    reveal_strlit("checkout_id");
    assert("new_config"@.len() == 10);
    assert("enabled"@.len() == 7);
    assert("remaining_games"@.len() == 15);
    assert("name"@.len() == 4);
    assert("values"@.len() == 6);
    assert("mode"@.len() == 4);
    assert("repo"@.len() == 4);
    assert("asset_glob"@.len() == 10);
    assert("zip_path"@.len() == 8);
    assert("force"@.len() == 5);
    assert("channel"@.len() == 7);
    assert("version"@.len() == 7);
    assert("session"@.len() == 7);
    assert("url"@.len() == 3);
    assert("req"@.len() == 3);
    assert("actor"@.len() == 5);
    assert("is_tsumo"@.len() == 8);
    assert("filter"@.len() == 6);
    assert("limit"@.len() == 5);
    assert("offset"@.len() == 6);
    assert("id"@.len() == 2);
    assert("base_url"@.len() == 8);
    assert("code"@.len() == 4);
    assert("proxy"@.len() == 5);
    assert("email"@.len() == 5);
    assert("renew_key"@.len() == 9);
    assert("key"@.len() == 3);
    assert("model"@.len() == 5);
    assert("review_id"@.len() == 9);
    assert("share_id"@.len() == 8);
    assert("product"@.len() == 7);
    assert("redeem"@.len() == 6);
    assert("order_id"@.len() == 8);
    assert("claim"@.len() == 5);
    assert("subscription_id"@.len() == 15);
    assert("checkout_id"@.len() == 11);
    assert("url"@[0] == 'u');
    assert("req"@[0] == 'r');
    assert("key"@[0] == 'k');
    assert("name"@[0] == 'n');
    assert("mode"@[0] == 'm');
    assert("repo"@[0] == 'r');
    assert("code"@[0] == 'c');
    assert("force"@[0] == 'f');
    assert("actor"@[0] == 'a');
    assert("limit"@[0] == 'l');
    assert("proxy"@[0] == 'p');
    assert("email"@[0] == 'e');
    assert("model"@[0] == 'm');
    assert("claim"@[0] == 'c');
    assert("values"@[0] == 'v');
    assert("filter"@[0] == 'f');
    assert("offset"@[0] == 'o');
    assert("redeem"@[0] == 'r');
    assert("enabled"@[0] == 'e');
    assert("channel"@[0] == 'c');
    assert("version"@[0] == 'v');
    assert("session"@[0] == 's');
    assert("product"@[0] == 'p');
    assert("zip_path"@[0] == 'z');
    assert("is_tsumo"@[0] == 'i');
    assert("base_url"@[0] == 'b');
    assert("share_id"@[0] == 's');
    assert("order_id"@[0] == 'o');
    assert("renew_key"@[2] == 'n');
    assert("review_id"@[2] == 'v');
    assert("new_config"@[0] == 'n');
    assert("asset_glob"@[0] == 'a');
    assert("remaining_games"@[0] == 'r');
    assert("subscription_id"@[0] == 's');
}

/// What each argument is read as: switches as flags, amounts as numbers, the
/// settings of a bot as a map, forms of their own as documents, the rest as texts.
pub proof fn arguments_have_their_kinds(key: Key)
    ensures
        kind_of(key) is Flag <==> key is Enabled || key is Force || key is Redeem,
        kind_of(key) is Count <==> key is RemainingGames || key is Limit || key is Offset,
        kind_of(key) is Members <==> key is Values,
        kind_of(key) is Document <==> key is NewConfig || key is Req || key is Actor || key is IsTsumo || key is Filter,
        kind_of(key) is Text <==> key is Name || key is Mode || key is Repo || key is AssetGlob || key is ZipPath || key is Channel || key is Version || key is Session || key is Url || key is Id || key is BaseUrl || key is Code || key is Proxy || key is Email || key is RenewKey || key is Key || key is Model || key is ReviewId || key is ShareId || key is Product || key is OrderId || key is Claim || key is SubscriptionId || key is CheckoutId,
{
}

/// The first complaint about an argument is heard, whatever comes after it, and
/// none about another is.
pub proof fn the_first_complaint_is_heard(complaints: Seq<Complaint>, key: Key, k: int)
    requires
        0 <= k <= complaints.len(),
        forall|j: int| 0 <= j < k ==> (#[trigger] complaints[j]).key != key,
    ensures
        k == complaints.len() ==> complaint_about(complaints, key) is None,
        k < complaints.len() && complaints[k].key == key ==> complaint_about(complaints, key)
            == Some(complaints[k].text@),
    decreases k,
{
    if k > 0 {
        let rest = complaints.skip(1);
        assert(complaints[0].key != key);
        assert forall|j: int| 0 <= j < k - 1 implies (#[trigger] rest[j]).key != key by {
            assert(rest[j] == complaints[j + 1]);
        }
        the_first_complaint_is_heard(rest, key, k - 1);
        if k < complaints.len() {
            assert(rest[k - 1] == complaints[k]);
        }
    }
}

/// An argument is read under its own names, as its own kind and with the complaint
/// about it: one that has to be there is never left out, and one that need not be
/// is left out exactly if the request has none or `null`.
pub proof fn each_argument_is_read_for_itself(
    param: Param,
    args: serde_json::Value,
    complaints: Seq<Complaint>,
)
    ensures
        ({
            let read = param_read(param, args, complaints);
            let found = argument_of(args, camel_name(param.key), snake_name(param.key));
            let missing = found is None || json_shape(found->0) is Null;
            &&& !param.required && missing ==> read == Ok::<Option<ArgumentView>, Seq<char>>(None)
            &&& param.required && found is None ==> read == Err::<Option<ArgumentView>, Seq<char>>(
                "missing argument "@ + camel_name(param.key),
            )
            &&& found is Some && (param.required || !missing) ==> match value_read(
                found->0,
                kind_of(param.key),
                complaint_about(complaints, param.key),
            ) {
                Ok(a) => read == Ok::<Option<ArgumentView>, Seq<char>>(Some(a)),
                Err(text) => read == Err::<Option<ArgumentView>, Seq<char>>(
                    "invalid "@ + camel_name(param.key) + ": "@ + text,
                ),
            }
        }),
{
}

/// A call that can be made has at each place what is read of the argument there.
pub proof fn calls_have_what_was_read(
    params: Seq<Param>,
    args: serde_json::Value,
    complaints: Seq<Complaint>,
)
    ensures
        params_read(params, args, complaints) matches Ok(list) ==> list.len() == params.len() && (
        forall|i: int|
            0 <= i < params.len() ==> param_read(#[trigger] params[i], args, complaints) == Ok::<
                Option<ArgumentView>,
                Seq<char>,
            >(list[i])),
    decreases params.len(),
{
    if params.len() > 0 {
        calls_have_what_was_read(params.drop_last(), args, complaints);
        if let Ok(list) = params_read(params, args, complaints) {
            assert forall|i: int| 0 <= i < params.len() implies param_read(
                #[trigger] params[i],
                args,
                complaints,
            ) == Ok::<Option<ArgumentView>, Seq<char>>(list[i]) by {
                if i < params.len() - 1 {
                    assert(params.drop_last()[i] == params[i]);
                }
            }
        }
    }
}

/// A call is refused exactly if some argument cannot be read, and in the words for
/// the first such argument.
pub proof fn calls_are_refused_for_the_first_fault(
    params: Seq<Param>,
    args: serde_json::Value,
    complaints: Seq<Complaint>,
    k: int,
)
    requires
        0 <= k <= params.len(),
        forall|j: int| 0 <= j < k ==> param_read(#[trigger] params[j], args, complaints) is Ok,
    ensures
        k == params.len() ==> params_read(params, args, complaints) is Ok,
        k < params.len() ==> (param_read(params[k], args, complaints) matches Err(text)
            ==> params_read(params, args, complaints) == Err::<
            Seq<Option<ArgumentView>>,
            Seq<char>,
        >(text)),
    decreases params.len(),
{
    if params.len() > 0 {
        let before = params.drop_last();
        if k < params.len() {
            assert forall|j: int| 0 <= j < k implies param_read(
                #[trigger] before[j],
                args,
                complaints,
            ) is Ok by {
                assert(before[j] == params[j]);
            }
            calls_are_refused_for_the_first_fault(before, args, complaints, k);
            if k < before.len() {
                assert(before[k] == params[k]);
            }
        } else {
            assert forall|j: int| 0 <= j < k - 1 implies param_read(
                #[trigger] before[j],
                args,
                complaints,
            ) is Ok by {
                assert(before[j] == params[j]);
            }
            calls_are_refused_for_the_first_fault(before, args, complaints, k - 1);
            assert(params.last() == params[k - 1]);
        }
    }
}

/// What becomes of a request, with its texts and arguments by their views.
pub enum DispatchView {
    Unknown(Seq<char>),
    Refused(Seq<char>),
    Call(Command, Seq<Option<ArgumentView>>),
}

/// The view of what becomes of a request.
pub open spec fn dispatch_view(dispatch: Dispatch) -> DispatchView {
    match dispatch {
        Dispatch::Unknown(text) => DispatchView::Unknown(text@),
        Dispatch::Refused(text) => DispatchView::Refused(text@),
        Dispatch::Call(command, list) => DispatchView::Call(command, arguments_view(list@)),
    }
}

/// What becomes of a request.
pub open spec fn dispatched(
    command: Seq<char>,
    args: serde_json::Value,
    complaints: Seq<Complaint>,
) -> DispatchView {
    match command_named(command) {
        None => DispatchView::Unknown(unknown_text(command)),
        Some(c) => match params_read(params_of(c), args, complaints) {
            Err(text) => DispatchView::Refused(text),
            Ok(list) => DispatchView::Call(c, list),
        },
    }
}

/// A request runs the command that it names or none. It runs it exactly if each
/// argument that the command takes can be read, and with just what is read of them;
/// a request that names no command is told so by the name it gave.
pub proof fn requests_run_what_they_name(
    command: Command,
    name: Seq<char>,
    args: serde_json::Value,
    complaints: Seq<Complaint>,
)
    ensures
        ({
            let done = dispatched(name, args, complaints);
            let params = params_of(command);
            &&& done matches DispatchView::Call(c, list) ==> name == name_of(c)
            &&& name == name_of(command) && (forall|i: int|
                0 <= i < params.len() ==> param_read(#[trigger] params[i], args, complaints) is Ok)
                ==> (done matches DispatchView::Call(c, list) && c == command && list.len()
                == params.len() && forall|i: int|
                0 <= i < params.len() ==> param_read(#[trigger] params[i], args, complaints)
                    == Ok::<Option<ArgumentView>, Seq<char>>(list[i]))
            &&& name == name_of(command) && (exists|i: int|
                0 <= i < params.len() && param_read(
                    #[trigger] params[i],
                    args,
                    complaints,
                ) is Err) ==> done is Refused
            &&& (forall|c: Command| name != #[trigger] name_of(c)) <==> done is Unknown
            &&& done is Unknown ==> done == DispatchView::Unknown("unknown command "@ + name)
        }),
{
    commands_have_their_names(command, name);
    if let Some(c) = command_named(name) {
        commands_have_their_names(c, name);
    }
    let params = params_of(command);
    calls_have_what_was_read(params, args, complaints);
    if forall|i: int| 0 <= i < params.len() ==> param_read(#[trigger] params[i], args, complaints) is Ok {
        calls_are_refused_for_the_first_fault(params, args, complaints, params.len() as int);
    }
}

/// An answer has the value that the command gave and status 200, or its error and
/// message and status 400. A command that there is not has status 404, a message
/// and nothing else, and is not answered like one that failed.
pub proof fn answers_say_how_it_went<V>(value: V, failure: Failure<V>, text: String)
    ensures
        answered(Ok::<V, Failure<V>>(value)).value == Some(value),
        answered(Ok::<V, Failure<V>>(value)).status == 200,
        answered(Err::<V, Failure<V>>(failure)).error == Some(failure.error),
        answered(Err::<V, Failure<V>>(failure)).message == Some(failure.message),
        answered(Err::<V, Failure<V>>(failure)).status == 400,
        plain_failure(text).error == text && plain_failure(text).message == text,
        not_found(text).status == 404 && !not_found(text).ok,
        not_found(text).message == Some(text),
        not_found(text).value is None && not_found(text).error is None,
{
}

/// The status with which a request is answered that runs nothing.
pub open spec fn refusal_status(dispatch: DispatchView) -> Option<u16> {
    match dispatch {
        DispatchView::Call(..) => None,
        DispatchView::Refused(_) => Some(STATUS_BAD_REQUEST),
        DispatchView::Unknown(_) => Some(STATUS_NOT_FOUND),
    }
}

/// A request that runs nothing is answered by why: with 404 exactly if it names no
/// command, and with 400 exactly if an argument stands in the way.
pub proof fn refusals_say_why(dispatch: DispatchView)
    ensures
        refusal_status(dispatch) == Some(404u16) <==> dispatch is Unknown,
        refusal_status(dispatch) == Some(400u16) <==> dispatch is Refused,
        refusal_status(dispatch) is None <==> dispatch is Call,
{
}

/// The arguments of a call are seen one by one, in their order.
pub proof fn arguments_are_seen_in_order(list: Seq<Option<Argument>>, i: int)
    requires
        0 <= i < list.len(),
    ensures
        arguments_view(list).len() == list.len(),
        list[i] is None <==> arguments_view(list)[i] is None,
        list[i] matches Some(a) ==> arguments_view(list)[i] == Some(a@),
{
}

} // verus!
