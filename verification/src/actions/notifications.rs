//! Notifications: a key that counts the notifications waiting and opens,
//! cycles through or clears them.

use vstd::prelude::*;
use crate::cache::CachedNotification;
use crate::outcome::KeyOutcome;
use crate::protocol::ServerCommand;
use crate::state::{PluginState, StateView};

verus! {

/// The character of a decimal digit.
pub open spec fn digit_char(d: nat) -> char {
    if d == 0 {
        '0'
    } else if d == 1 {
        '1'
    } else if d == 2 {
        '2'
    } else if d == 3 {
        '3'
    } else if d == 4 {
        '4'
    } else if d == 5 {
        '5'
    } else if d == 6 {
        '6'
    } else if d == 7 {
        '7'
    } else if d == 8 {
        '8'
    } else {
        '9'
    }
}

/// The decimal representation of `n`, without leading zeros.
pub open spec fn decimal(n: nat) -> Seq<char>
    decreases n,
{
    if n < 10 {
        seq![digit_char(n)]
    } else {
        decimal(n / 10).push(digit_char(n % 10))
    }
}

/// The one-character text of the digit `d`.
fn digit_text(d: usize) -> (res: &'static str)
    requires
        d < 10,
    ensures
        res@ == seq![digit_char(d as nat)],
{
    if d == 0 {
        proof { reveal_strlit("0"); }
        "0"
    } else if d == 1 {
        proof { reveal_strlit("1"); }
        "1"
    } else if d == 2 {
        proof { reveal_strlit("2"); }
        "2"
    } else if d == 3 {
        proof { reveal_strlit("3"); }
        "3"
    } else if d == 4 {
        proof { reveal_strlit("4"); }
        "4"
    } else if d == 5 {
        proof { reveal_strlit("5"); }
        "5"
    } else if d == 6 {
        proof { reveal_strlit("6"); }
        "6"
    } else if d == 7 {
        proof { reveal_strlit("7"); }
        "7"
    } else if d == 8 {
        proof { reveal_strlit("8"); }
        "8"
    } else {
        proof { reveal_strlit("9"); }
        "9"
    }
}

/// The decimal representation of `n`.
pub fn decimal_string(n: usize) -> (res: String)
    ensures
        res@ == decimal(n as nat),
    decreases n,
{
    if n < 10 {
        let s = digit_text(n).to_owned();
        assert(s@ =~= decimal(n as nat));
        s
    } else {
        let mut s = decimal_string(n / 10);
        let d = digit_text(n % 10);
        let ghost before = s@;
        s.append(d);
        assert(s@ =~= before.push(digit_char((n % 10) as nat)));
        s
    }
}

/// The title of a Notifications key: how many notifications are waiting.
pub fn update_title<C>(state: &PluginState<C>) -> (title: String)
    ensures
        title@ == decimal(state@.notifications.len()),
{
    decimal_string(state.notification_cache().len())
}

/// What a Notifications key does when pressed.
#[derive(Debug, Clone, Copy, PartialEq, Eq, Structural)]
pub enum NotificationsActionType {
    DoNothing,
    Clear,
    OpenAndClear,
    CycleRecentFirst,
    CycleOldestFirst,
}

impl Default for NotificationsActionType {
    fn default() -> (res: Self)
        ensures
            res == NotificationsActionType::DoNothing,
    {
        NotificationsActionType::DoNothing
    }
}

/// Settings of a Notifications key.
#[derive(Debug, Clone, Copy, PartialEq, Eq, Structural)]
pub struct NotificationsSettings {
    pub action_type: NotificationsActionType,
}

impl Default for NotificationsSettings {
    fn default() -> (res: Self)
        ensures
            res.action_type == NotificationsActionType::DoNothing,
    {
        NotificationsSettings { action_type: NotificationsActionType::DoNothing }
    }
}

/// What a Notifications key press asks for: whether to refresh the key's
/// counter title first, and then what the key does.
#[derive(Debug, Clone, PartialEq)]
pub struct NotificationKeyOutcome {
    pub refresh_title: bool,
    pub outcome: KeyOutcome,
}

/// Opening `taken`: with no notification the key alerts and its title stays;
/// otherwise its title refreshes and the client is asked to open the
/// notification's text channel, leaving the guild to the client.
pub open spec fn opens(taken: Option<CachedNotification>, res: NotificationKeyOutcome) -> bool {
    match taken {
        None => !res.refresh_title && res.outcome is Alert,
        Some(n) => res.refresh_title && res.outcome == (KeyOutcome::Send {
            command: ServerCommand::SelectTextChannel { guild_id: None, channel_id: n.channel_id },
            state: None,
        }),
    }
}

/// The newest waiting notification, if any.
pub open spec fn newest(queue: Seq<CachedNotification>) -> Option<CachedNotification> {
    if queue.len() == 0 {
        None
    } else {
        Some(queue.last())
    }
}

/// The oldest waiting notification, if any.
pub open spec fn oldest(queue: Seq<CachedNotification>) -> Option<CachedNotification> {
    if queue.len() == 0 {
        None
    } else {
        Some(queue[0])
    }
}

/// The queue without its newest notification.
pub open spec fn without_newest(queue: Seq<CachedNotification>) -> Seq<CachedNotification> {
    if queue.len() == 0 {
        queue
    } else {
        queue.drop_last()
    }
}

/// The queue without its oldest notification.
pub open spec fn without_oldest(queue: Seq<CachedNotification>) -> Seq<CachedNotification> {
    if queue.len() == 0 {
        queue
    } else {
        queue.drop_first()
    }
}

/// The newest notification is the one queued last, and taking it gives back
/// the queue as it was before that notification arrived.
pub proof fn lemma_newest_is_last_queued(queue: Seq<CachedNotification>, n: CachedNotification)
    ensures
        newest(queue.push(n)) == Some(n),
        without_newest(queue.push(n)) == queue,
{
    assert(queue.push(n).drop_last() =~= queue);
}

/// Cycling oldest first takes notifications in the order they arrived: a new
/// arrival changes neither which notification is taken next nor the order of
/// the rest.
pub proof fn lemma_oldest_first_is_arrival_order(queue: Seq<CachedNotification>, n: CachedNotification)
    requires
        queue.len() > 0,
    ensures
        oldest(queue.push(n)) == oldest(queue),
        without_oldest(queue.push(n)) == without_oldest(queue).push(n),
{
    assert(queue.push(n).drop_first() =~= queue.drop_first().push(n));
}

/// Which notification a press takes: the newest is the last one queued, the
/// oldest the first; taking one leaves the others in their order; an empty
/// queue yields nothing and stays empty.
pub proof fn lemma_notification_picks(queue: Seq<CachedNotification>)
    ensures
        queue.len() > 0 ==> {
            &&& newest(queue) == Some(queue[queue.len() - 1])
            &&& without_newest(queue) == queue.subrange(0, queue.len() - 1)
            &&& oldest(queue) == Some(queue[0])
            &&& without_oldest(queue) == queue.subrange(1, queue.len() as int)
        },
        queue.len() == 0 ==> {
            &&& newest(queue) is None
            &&& oldest(queue) is None
            &&& without_newest(queue) == queue
            &&& without_oldest(queue) == queue
        },
{
    if queue.len() > 0 {
        assert(queue.drop_last() =~= queue.subrange(0, queue.len() - 1));
        assert(queue.drop_first() =~= queue.subrange(1, queue.len() as int));
    }
}

/// Opening a taken notification asks the client to open its text channel,
/// without naming the guild, after refreshing the title; when nothing was
/// taken the key alerts and its title stays.
pub proof fn lemma_opening(taken: Option<CachedNotification>, res: NotificationKeyOutcome)
    ensures
        taken is None ==> (opens(taken, res) <==> (!res.refresh_title && res.outcome is Alert)),
        taken matches Some(n) ==> (opens(taken, res) <==> (res.refresh_title && res.outcome
            == (KeyOutcome::Send {
            command: ServerCommand::SelectTextChannel { guild_id: None, channel_id: n.channel_id },
            state: None,
        }))),
{
}

/// The value of a string of decimal digits.
pub open spec fn digits_value(s: Seq<char>) -> int
    decreases s.len(),
{
    if s.len() == 0 {
        0
    } else {
        digits_value(s.drop_last()) * 10 + (s.last() as int - '0' as int)
    }
}

/// Each digit character stands for its digit.
proof fn lemma_digit_value(d: nat)
    requires
        d < 10,
    ensures
        digit_char(d) as int - '0' as int == d,
        '0' <= digit_char(d) <= '9',
{
    assert('1' as int == '0' as int + 1);
    assert('2' as int == '0' as int + 2);
    assert('3' as int == '0' as int + 3);
    assert('4' as int == '0' as int + 4);
    assert('5' as int == '0' as int + 5);
    assert('6' as int == '0' as int + 6);
    assert('7' as int == '0' as int + 7);
    assert('8' as int == '0' as int + 8);
    assert('9' as int == '0' as int + 9);
}

/// The title text reads back as the count: every character is a decimal
/// digit, the first is not a zero unless the count is zero, and the digits'
/// value is the count.
pub proof fn lemma_decimal_reads_back(n: nat)
    ensures
        decimal(n).len() > 0,
        forall|i: int| 0 <= i < decimal(n).len() ==> '0' <= #[trigger] decimal(n)[i] <= '9',
        n > 0 ==> decimal(n)[0] != '0',
        digits_value(decimal(n)) == n,
    decreases n,
{
    if n < 10 {
        lemma_digit_value(n);
        assert(decimal(n).drop_last() =~= Seq::<char>::empty());
        assert(digits_value(Seq::<char>::empty()) == 0);
    } else {
        lemma_decimal_reads_back(n / 10);
        lemma_digit_value(n % 10);
        let s = decimal(n);
        assert(s.drop_last() =~= decimal(n / 10));
        assert forall|i: int| 0 <= i < s.len() implies '0' <= #[trigger] s[i] <= '9' by {
            if i < s.len() - 1 {
                assert(s[i] == decimal(n / 10)[i]);
            }
        }
        assert(s[0] == decimal(n / 10)[0]);
        assert(s.last() == digit_char(n % 10));
        assert(digits_value(s) == digits_value(s.drop_last()) * 10 + (s.last() as int - '0' as int));
        assert(n == (n / 10) * 10 + n % 10);
    }
}

/// Notifications: counts waiting notifications and opens or clears them.
pub struct NotificationsAction;

impl NotificationsAction {
    /// `DoNothing` does nothing; `Clear` drops every waiting notification and
    /// refreshes the title; `OpenAndClear` opens the newest and drops all;
    /// `CycleRecentFirst` opens and drops the newest; `CycleOldestFirst` opens
    /// and drops the oldest.
    pub fn key_down<C>(state: &mut PluginState<C>, settings: &NotificationsSettings) -> (res:
        NotificationKeyOutcome)
        ensures
            match settings.action_type {
                NotificationsActionType::DoNothing => {
                    &&& final(state)@ == old(state)@
                    &&& !res.refresh_title
                    &&& res.outcome is Nothing
                },
                NotificationsActionType::Clear => {
                    &&& final(state)@ == (StateView { notifications: Seq::empty(), ..old(state)@ })
                    &&& res.refresh_title
                    &&& res.outcome is Nothing
                },
                NotificationsActionType::OpenAndClear => {
                    &&& final(state)@ == (StateView { notifications: Seq::empty(), ..old(state)@ })
                    &&& opens(newest(old(state)@.notifications), res)
                },
                NotificationsActionType::CycleRecentFirst => {
                    &&& final(state)@ == (StateView {
                        notifications: without_newest(old(state)@.notifications),
                        ..old(state)@
                    })
                    &&& opens(newest(old(state)@.notifications), res)
                },
                NotificationsActionType::CycleOldestFirst => {
                    &&& final(state)@ == (StateView {
                        notifications: without_oldest(old(state)@.notifications),
                        ..old(state)@
                    })
                    &&& opens(oldest(old(state)@.notifications), res)
                },
            },
    {
        let taken = match settings.action_type {
            NotificationsActionType::DoNothing => {
                return NotificationKeyOutcome { refresh_title: false, outcome: KeyOutcome::Nothing };
            },
            NotificationsActionType::Clear => {
                state.clear_notifications();
                return NotificationKeyOutcome { refresh_title: true, outcome: KeyOutcome::Nothing };
            },
            NotificationsActionType::OpenAndClear => {
                let newest = state.pop_newest_notification();
                state.clear_notifications();
                newest
            },
            NotificationsActionType::CycleRecentFirst => state.pop_newest_notification(),
            NotificationsActionType::CycleOldestFirst => state.pop_oldest_notification(),
        };
        match taken {
            None => NotificationKeyOutcome { refresh_title: false, outcome: KeyOutcome::Alert },
            Some(notification) => NotificationKeyOutcome {
                refresh_title: true,
                outcome: KeyOutcome::Send {
                    command: ServerCommand::SelectTextChannel {
                        guild_id: None,
                        channel_id: notification.channel_id,
                    },
                    state: None,
                },
            },
        }
    }
}

} // verus!
