//! The stream of events that the Web UI listens to.

use vstd::prelude::*;

verus! {

/// How often a silent stream is kept alive, in seconds.
pub const KEEP_ALIVE_SECS: u64 = 15;

/// Where an event of the stream comes from.
#[derive(Clone, Copy, Debug, PartialEq, Eq, Structural)]
pub enum Feed {
    /// Game events.
    Mjai,
    /// What the bot answers.
    BotResponses,
    /// How the bots are.
    BotStatus,
    /// How the capture is.
    CaptureStatus,
    /// Notices for the user.
    Notices,
    /// Changes of the settings.
    Config,
    /// Results of the analysis.
    Analysis,
    /// Games that were recorded.
    History,
    /// Lines of the log.
    Logs,
    /// Entries of the inspector.
    Inspector,
}

/// The name under which the Web UI knows the events of a feed.
pub open spec fn event_name(feed: Feed) -> Seq<char> {
    match feed {
        Feed::Mjai => "mjai-event"@,
        Feed::BotResponses => "bot-response"@,
        Feed::BotStatus => "bot-status"@,
        Feed::CaptureStatus => "capture-status"@,
        Feed::Notices => "notify"@,
        Feed::Config => "config-updated"@,
        Feed::Analysis => "analysis-result"@,
        Feed::History => "history-recorded"@,
        Feed::Logs => "log-entry"@,
        Feed::Inspector => "inspector-entry"@,
    }
}

impl Feed {
    /// The name under which the Web UI knows the events of the feed.
    pub fn event(self) -> (name: &'static str)
        ensures
            name@ == event_name(self),
    {
        match self {
            Feed::Mjai => "mjai-event",
            Feed::BotResponses => "bot-response",
            Feed::BotStatus => "bot-status",
            Feed::CaptureStatus => "capture-status",
            Feed::Notices => "notify",
            Feed::Config => "config-updated",
            Feed::Analysis => "analysis-result",
            Feed::History => "history-recorded",
            Feed::Logs => "log-entry",
            Feed::Inspector => "inspector-entry",
        }
    }
}

/// No two feeds share a name.
pub proof fn feeds_are_told_apart(a: Feed, b: Feed)
    requires
        event_name(a) == event_name(b),
    ensures
        a == b,
{
    reveal_strlit("mjai-event");
    reveal_strlit("bot-response");
    reveal_strlit("bot-status");
    reveal_strlit("capture-status");
    reveal_strlit("notify");
    reveal_strlit("config-updated");
    reveal_strlit("analysis-result");
    reveal_strlit("history-recorded");
    reveal_strlit("log-entry");
    reveal_strlit("inspector-entry");
    let x = event_name(a);
    let y = event_name(b);
    assert(x.len() == y.len());
    assert(x[0] == y[0] && x[4] == y[4]);
}

/// Each feed has the name that the Web UI listens for.
pub proof fn feeds_are_known_by_name(feed: Feed)
    ensures
        feed is Mjai ==> event_name(feed) == "mjai-event"@,
        feed is BotResponses ==> event_name(feed) == "bot-response"@,
        feed is BotStatus ==> event_name(feed) == "bot-status"@,
        feed is CaptureStatus ==> event_name(feed) == "capture-status"@,
        feed is Notices ==> event_name(feed) == "notify"@,
        feed is Config ==> event_name(feed) == "config-updated"@,
        feed is Analysis ==> event_name(feed) == "analysis-result"@,
        feed is History ==> event_name(feed) == "history-recorded"@,
        feed is Logs ==> event_name(feed) == "log-entry"@,
        feed is Inspector ==> event_name(feed) == "inspector-entry"@,
{
}

} // verus!
