//! Fixed application configuration.

use vstd::prelude::*;

verus! {

/// Alerting on long-running instances.
#[derive(Debug, Clone)]
pub struct AlertConfig {
    /// Seconds an instance may run without an auto-stop before it is reported.
    pub alert_threshold_secs: u64,
    /// Whether an alert plays a sound.
    pub sound_enabled: bool,
    /// Webhook to notify, reserved.
    pub slack_webhook_url: Option<String>,
}

impl AlertConfig {
    /// Alert after one hour, with sound, and no webhook.
    pub fn default() -> (r: AlertConfig)
        ensures
            r.alert_threshold_secs == 3600,
            r.sound_enabled,
            r.slack_webhook_url is None,
    {
        AlertConfig { alert_threshold_secs: 3600, sound_enabled: true, slack_webhook_url: None }
    }
}

/// Application-wide configuration.
#[derive(Debug, Clone)]
pub struct AppConfig {
    /// Region override; `None` uses the provider's default chain.
    pub aws_region: Option<String>,
    pub alerts: AlertConfig,
    /// Interval of the main loop, in milliseconds.
    pub tick_rate_ms: u64,
}

impl AppConfig {
    /// No region override, default alerts, and a 250 ms tick.
    pub fn default() -> (r: AppConfig)
        ensures
            r.aws_region is None,
            r.alerts.alert_threshold_secs == 3600,
            r.alerts.sound_enabled,
            r.alerts.slack_webhook_url is None,
            r.tick_rate_ms == 250,
    {
        AppConfig { aws_region: None, alerts: AlertConfig::default(), tick_rate_ms: 250 }
    }
}

} // verus!
