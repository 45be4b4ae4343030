//! Epoch and key state, and the steps by which the scheduler moves it on.

use crate::codec::{format_rfc3339, rfc3339_text};
use crate::config::Config;
use crate::oprf::{active_tags, public_key_bytes};
use crate::schedule::{derive_schedule, first_rotation, schedule_fault, starting_epoch, Fatal};
use crate::timestamp::{Delay, Timestamp};
use vstd::prelude::*;

verus! {

/// Internal state of the OPRF service.
pub struct OPRFServer {
    /// The PPOPRF instance: the secret key and the epochs it still serves.
    pub server: ppoprf::ppoprf::Server,
    /// Currently valid randomness epoch.
    pub epoch: u8,
    /// RFC 3339 timestamp of the next epoch rotation, once it is known.
    pub next_epoch_time: Option<String>,
}

/// What the scheduler does next.
#[derive(Clone, Copy, Debug)]
pub enum Phase {
    /// Find the place in the schedule and puncture the epochs that are over.
    Start,
    /// Announce the instant at which the current epoch ends, then wait for it.
    Publish { next_rotation: Timestamp },
    /// End the current epoch; `next_rotation` is the instant at which it ended.
    Rotate { next_rotation: Timestamp },
}

/// What one step of the scheduler leaves for its caller to do.
#[derive(Clone, Copy, Debug)]
pub struct Step {
    /// The phase to take the next step in.
    pub phase: Phase,
    /// How long to wait before the next step, if at all.
    pub sleep: Option<Delay>,
}

/// The tags of `tags` outside of `from..to`.
pub open spec fn without_range(tags: Set<u8>, from: int, to: int) -> Set<u8> {
    Set::new(|tag: u8| tags.contains(tag) && !(from <= tag < to))
}

/// The text of an optional string.
pub open spec fn text_of(field: Option<String>) -> Option<Seq<char>> {
    match field {
        Some(text) => Some(text@),
        None => None,
    }
}

/// Whether `tags` holds every tag of `from..to`.
pub open spec fn holds_range(tags: Set<u8>, from: int, to: int) -> bool {
    forall|tag: u8| from <= tag < to ==> #[trigger] tags.contains(tag)
}

/// Whether the epoch after `epoch` is still in the range.
pub open spec fn has_successor(config: Config, epoch: u8) -> bool {
    config.first_epoch <= epoch + 1 <= config.last_epoch
}

/// The epoch that follows `epoch`, where the range has one. Where it has
/// none, the range is used up and the key is due for replacement.
pub fn next_epoch(config: &Config, epoch: u8) -> (next: Option<u8>)
    ensures
        next is Some <==> has_successor(*config, epoch),
        next matches Some(following) ==> following == epoch + 1,
{
    match epoch.checked_add(1) {
        Some(following) if config.first_epoch <= following && following
            <= config.last_epoch => Some(following),
        _ => None,
    }
}

/// The epoch tags of the range in ascending order: the tags that a new
/// instance is made for.
pub fn epoch_tags(config: &Config) -> (tags: Vec<u8>)
    requires
        config.first_epoch <= config.last_epoch,
    ensures
        tags@.len() == config.epoch_count(),
        forall|i: int| 0 <= i < tags@.len() ==> tags@[i] == config.first_epoch + i,
{
    let mut tags: Vec<u8> = Vec::new();
    let mut tag: u8 = config.first_epoch;
    while tag < config.last_epoch
        invariant
            config.first_epoch <= tag <= config.last_epoch,
            tags@.len() == tag - config.first_epoch,
            forall|i: int| 0 <= i < tags@.len() ==> tags@[i] == config.first_epoch + i,
        decreases config.last_epoch - tag,
    {
        tags.push(tag);
        tag += 1;
    }
    tags.push(tag);
    tags
}

impl OPRFServer {
    /// The state is one that serving may see: the current epoch lies in the
    /// range, and the instance serves the epochs from the current one to the
    /// last and no other, so every earlier epoch has been punctured.
    pub open spec fn wf(&self, config: Config) -> bool {
        &&& config.first_epoch <= self.epoch <= config.last_epoch
        &&& active_tags(self.server) == Set::new(
            |tag: u8| self.epoch <= tag <= config.last_epoch,
        )
    }

    /// The state at the start of a key generation: every epoch of the range
    /// is served, the first is current, and no rotation time is known.
    pub open spec fn fresh(&self, config: Config) -> bool {
        &&& self.epoch == config.first_epoch
        &&& self.next_epoch_time is None
        &&& active_tags(self.server) == config.epochs()
    }

    /// What `catch_up` to `current` makes of `before`.
    pub open spec fn caught_up(
        before: OPRFServer,
        config: Config,
        current: u8,
        after: OPRFServer,
        out: Result<(), Fatal>,
    ) -> bool {
        &&& text_of(after.next_epoch_time) == text_of(before.next_epoch_time)
        &&& public_key_bytes(after.server) == public_key_bytes(before.server)
        &&& holds_range(active_tags(before.server), config.first_epoch as int, current as int)
            ==> out is Ok
        &&& match out {
            Ok(()) => if current == config.first_epoch {
                after.epoch == before.epoch && after.server == before.server
            } else {
                after.epoch == current && active_tags(after.server) == without_range(
                    active_tags(before.server),
                    config.first_epoch as int,
                    current as int,
                )
            },
            Err(fault) => {
                &&& fault == Fatal::Puncture
                &&& after.epoch == before.epoch
                &&& exists|reached: int|
                    config.first_epoch <= reached < current && !active_tags(
                        before.server,
                    ).contains(reached as u8) && active_tags(after.server)
                        == #[trigger] without_range(
                        active_tags(before.server),
                        config.first_epoch as int,
                        reached,
                    )
            },
        }
    }

    /// What `publish` of `next_rotation` makes of `before`.
    pub open spec fn published(
        before: OPRFServer,
        next_rotation: Timestamp,
        after: OPRFServer,
        out: Result<(), Fatal>,
    ) -> bool {
        &&& after.server == before.server
        &&& after.epoch == before.epoch
        &&& match out {
            Ok(()) => rfc3339_text(next_rotation.seconds() as int) is Some && text_of(
                after.next_epoch_time,
            ) == rfc3339_text(next_rotation.seconds() as int),
            Err(fault) => {
                &&& fault == Fatal::TimestampFormat
                &&& rfc3339_text(next_rotation.seconds() as int) is None
                &&& text_of(after.next_epoch_time) == text_of(before.next_epoch_time)
            },
        }
    }

    /// What `advance` makes of `before`.
    pub open spec fn advanced(
        before: OPRFServer,
        config: Config,
        after: OPRFServer,
        out: Result<(), Fatal>,
    ) -> bool {
        &&& active_tags(before.server).contains(before.epoch) ==> out is Ok
        &&& match out {
            Ok(()) => if has_successor(config, before.epoch) {
                &&& after.epoch == before.epoch + 1
                &&& active_tags(after.server) == active_tags(before.server).remove(before.epoch)
                &&& public_key_bytes(after.server) == public_key_bytes(before.server)
                &&& text_of(after.next_epoch_time) == text_of(before.next_epoch_time)
            } else {
                after.fresh(config)
            },
            Err(fault) => {
                &&& after.epoch == before.epoch
                &&& text_of(after.next_epoch_time) == text_of(before.next_epoch_time)
                &&& public_key_bytes(after.server) == public_key_bytes(before.server)
                &&& if fault == Fatal::Puncture {
                    active_tags(after.server) == active_tags(before.server)
                } else {
                    &&& fault == Fatal::KeyInit
                    &&& !has_successor(config, before.epoch)
                    &&& active_tags(after.server) == active_tags(before.server).remove(
                        before.epoch,
                    )
                }
            },
        }
    }

    /// Initialize a new OPRFServer state with the given configuration: a
    /// newly keyed instance for the whole epoch range, at its first epoch.
    ///
    /// The instance is asked for with the tags of `epoch_tags`, and the
    /// answer is turned into the state by `with_instance`. An instance for
    /// a range of tags can always be made.
    pub fn new(config: &Config) -> (made: Result<Self, ppoprf::PPRFError>)
        requires
            config.first_epoch <= config.last_epoch,
        ensures
            made matches Ok(state) && state.fresh(*config) && state.wf(*config),
    {
        // ppoprf wants a vector, so generate one from our range.
        let epochs: Vec<u8> = epoch_tags(config);
        proof {
            assert forall|tag: u8| epochs@.contains(tag) <==> config.first_epoch <= tag
                <= config.last_epoch by {
                if config.first_epoch <= tag <= config.last_epoch {
                    assert(epochs@[tag - config.first_epoch] == tag);
                }
            }
        }
        let instance = ppoprf::ppoprf::Server::new(epochs);
        proof {
            if instance is Ok {
                let server = instance->Ok_0;
                assert(active_tags(server) =~= config.epochs());
                assert(active_tags(server) =~= Set::new(
                    |tag: u8| config.first_epoch <= tag <= config.last_epoch,
                ));
            }
        }
        Self::with_instance(config, instance)
    }

    /// The state that a key generation starts in, around the instance that
    /// was made for it: the first epoch of the range is current and no
    /// rotation time is known. Where no instance could be made, the reason is
    /// handed on.
    pub fn with_instance(
        config: &Config,
        instance: Result<ppoprf::ppoprf::Server, ppoprf::PPRFError>,
    ) -> (made: Result<Self, ppoprf::PPRFError>)
        ensures
            match instance {
                Ok(server) => made matches Ok(state) && state.server == server && state.epoch
                    == config.first_epoch && state.next_epoch_time is None,
                Err(fault) => made matches Err(handed) && handed == fault,
            },
    {
        match instance {
            Ok(server) => Ok(
                OPRFServer { server, epoch: config.first_epoch, next_epoch_time: None },
            ),
            Err(fault) => Err(fault),
        }
    }

    /// Brings a state for the whole range up to `current`: if that is not
    /// the first epoch, every epoch from the first up to it, itself left
    /// out, is punctured in ascending order, and `current` becomes the
    /// current epoch. The first puncture that fails ends it; none fails
    /// while the instance still serves the epochs to puncture, as a new one
    /// does.
    pub fn catch_up(&mut self, config: &Config, current: u8) -> (out: Result<(), Fatal>)
        ensures
            Self::caught_up(*old(self), *config, current, *final(self), out),
            old(self).fresh(*config) && config.first_epoch <= current <= config.last_epoch
                ==> out is Ok && final(self).wf(*config),
    {
        if current != config.first_epoch {
            let mut tag: u8 = config.first_epoch;
            assert(active_tags(self.server) =~= without_range(
                active_tags(old(self).server),
                config.first_epoch as int,
                tag as int,
            ));
            while tag < current
                invariant
                    config.first_epoch <= tag,
                    config.first_epoch < current ==> tag <= current,
                    current <= config.first_epoch ==> tag == config.first_epoch,
                    self.epoch == old(self).epoch,
                    self.next_epoch_time == old(self).next_epoch_time,
                    public_key_bytes(self.server) == public_key_bytes(old(self).server),
                    active_tags(self.server) == without_range(
                        active_tags(old(self).server),
                        config.first_epoch as int,
                        tag as int,
                    ),
                decreases current - tag,
            {
                let ghost before = active_tags(self.server);
                match self.server.puncture(tag) {
                    Ok(()) => {},
                    Err(_) => {
                        assert(!before.contains(tag));
                        assert(!active_tags(old(self).server).contains(tag));
                        assert(active_tags(self.server) == without_range(
                            active_tags(old(self).server),
                            config.first_epoch as int,
                            tag as int,
                        ));
                        return Err(Fatal::Puncture);
                    },
                }
                assert(before.remove(tag) =~= without_range(
                    active_tags(old(self).server),
                    config.first_epoch as int,
                    tag + 1,
                ));
                tag += 1;
            }
            self.epoch = current;
            assert(active_tags(self.server) =~= without_range(
                active_tags(old(self).server),
                config.first_epoch as int,
                current as int,
            ));
            proof {
                if old(self).fresh(*config) && config.first_epoch <= current <= config.last_epoch {
                    assert(active_tags(self.server) =~= Set::new(
                        |tag: u8| current <= tag <= config.last_epoch,
                    ));
                }
            }
        }
        Ok(())
    }

    /// Announces the instant of the next rotation: its RFC 3339 text in UTC,
    /// cut to the whole second, becomes the state's next epoch time. An
    /// instant that has no such text leaves the state as it is.
    pub fn publish(&mut self, next_rotation: Timestamp) -> (out: Result<(), Fatal>)
        ensures
            Self::published(*old(self), next_rotation, *final(self), out),
            forall|config: Config| old(self).wf(config) ==> final(self).wf(config),
    {
        self.announce(format_rfc3339(next_rotation.seconds()))
    }

    /// Takes the text of the instant of the next rotation for the state's
    /// next epoch time. Without a text there is nothing to announce, and
    /// the state stays as it is.
    pub fn announce(&mut self, text: Option<String>) -> (out: Result<(), Fatal>)
        ensures
            final(self).server == old(self).server,
            final(self).epoch == old(self).epoch,
            match text {
                Some(written) => out is Ok && final(self).next_epoch_time == Some(written),
                None => out == Err::<(), Fatal>(Fatal::TimestampFormat)
                    && final(self).next_epoch_time == old(self).next_epoch_time,
            },
    {
        match text {
            Some(written) => {
                self.next_epoch_time = Some(written);
                Ok(())
            },
            None => Err(Fatal::TimestampFormat),
        }
    }

    /// Ends the current epoch: it is punctured, and the epoch after it
    /// becomes current. Where the range has no epoch after it, the whole
    /// state is replaced by a new one with a new key, at the first epoch.
    /// This fails only where the instance does not serve the current epoch.
    pub fn advance(&mut self, config: &Config) -> (out: Result<(), Fatal>)
        requires
            config.first_epoch <= config.last_epoch,
        ensures
            Self::advanced(*old(self), *config, *final(self), out),
            old(self).wf(*config) ==> out is Ok && final(self).wf(*config),
    {
        // Puncture the current epoch so it can no longer be used.
        let old_epoch: u8 = self.epoch;
        match self.server.puncture(old_epoch) {
            Ok(()) => {},
            Err(_) => {
                return Err(Fatal::Puncture);
            },
        }
        // Advance to the next epoch, checking for overflow and out-of-range.
        match next_epoch(config, old_epoch) {
            Some(new_epoch) => {
                // Server is already initialized for this one.
                self.epoch = new_epoch;
                proof {
                    if old(self).wf(*config) {
                        assert(active_tags(self.server) =~= Set::new(
                            |tag: u8| new_epoch <= tag <= config.last_epoch,
                        ));
                    }
                }
                Ok(())
            },
            None => {
                // Epochs exhausted: drop the inner state with its private key.
                match OPRFServer::new(config) {
                    Ok(state) => {
                        *self = state;
                        Ok(())
                    },
                    Err(_) => Err(Fatal::KeyInit),
                }
            },
        }
    }
}

/// What one step of the scheduler in `phase` at `now` makes of `before`.
pub open spec fn stepped(
    before: OPRFServer,
    config: Config,
    phase: Phase,
    now: Timestamp,
    after: OPRFServer,
    out: Result<Step, Fatal>,
) -> bool {
    match phase {
        Phase::Start => match schedule_fault(config, now) {
            Some(fault) => out == Err::<Step, Fatal>(fault) && after == before,
            None => {
                &&& OPRFServer::caught_up(
                    before,
                    config,
                    starting_epoch(config, now) as u8,
                    after,
                    settled(out),
                )
                &&& out matches Ok(step) ==> step.sleep is None && step.phase == (Phase::Publish {
                    next_rotation: first_rotation(config, now),
                })
            },
        },
        Phase::Publish { next_rotation } => {
            &&& OPRFServer::published(before, next_rotation, after, settled(out))
            &&& out matches Ok(step) ==> step.phase == (Phase::Rotate { next_rotation })
                && waits_until(step.sleep, next_rotation, now)
        },
        Phase::Rotate { next_rotation } => if next_rotation.seconds() + config.epoch_seconds
            > i64::MAX {
            out == Err::<Step, Fatal>(Fatal::TimeOutOfRange) && after == before
        } else {
            &&& OPRFServer::advanced(before, config, after, settled(out))
            &&& out matches Ok(step) ==> step.sleep is None && step.phase == (Phase::Publish {
                next_rotation: next_rotation.plus_seconds(config.epoch_seconds as int),
            })
        },
    }
}

/// Whether a step came to its end, without what it left to do.
pub open spec fn settled(out: Result<Step, Fatal>) -> Result<(), Fatal> {
    match out {
        Ok(_) => Ok(()),
        Err(fault) => Err(fault),
    }
}

/// `sleep` is the wait at `now` for `target`: the time that is left until
/// then, and none at all where the target is not ahead.
pub open spec fn waits_until(sleep: Option<Delay>, target: Timestamp, now: Timestamp) -> bool {
    &&& sleep is Some <==> target.as_nanos() > now.as_nanos()
    &&& sleep matches Some(delay) ==> delay.as_nanos() == target.as_nanos() - now.as_nanos()
        && delay.nanoseconds < crate::timestamp::NANOS_PER_SECOND
}

/// Advance to the next epoch on a timer: one step of it.
///
/// The scheduler is a cycle of steps, each taken with the state held for
/// writing and the clock read just before. The caller starts in
/// `Phase::Start`, waits as long as a step asks it to, and takes the next
/// step in the phase that the last one returned:
///
/// - `Start` finds the current epoch from the base time and punctures the
///   epochs that are over;
/// - `Publish` announces when the current epoch ends, and asks for the wait
///   until then, or for none if that instant has passed;
/// - `Rotate` puts the following rotation one epoch length later, punctures
///   the current epoch and moves to the next, or to a new key where the range
///   is used up.
///
/// On a sound state a step fails only for the clock's sake: where the base
/// time lies ahead, where the epochs since then are too many to count, or
/// where the next rotation is no instant that can be written.
///
/// An error is final: the caller is to stop serving.
pub fn epoch_loop(
    state: &mut OPRFServer,
    config: &Config,
    phase: Phase,
    now: Timestamp,
) -> (out: Result<Step, Fatal>)
    requires
        config.valid(),
    ensures
        stepped(*old(state), *config, phase, now, *final(state), out),
        out is Ok && old(state).wf(*config) && (phase is Start ==> old(state).fresh(*config))
            ==> final(state).wf(*config),
        phase is Start && old(state).fresh(*config) && schedule_fault(*config, now) is None
            ==> out is Ok,
        phase matches Phase::Rotate { next_rotation } && old(state).wf(*config)
            && next_rotation.seconds() + config.epoch_seconds <= i64::MAX ==> out is Ok,
{
    match phase {
        Phase::Start => {
            // Calculate where we are in the epoch schedule relative to the
            // base time. We may need to start in the middle of the range.
            let schedule = match derive_schedule(config, now) {
                Ok(schedule) => schedule,
                Err(fault) => {
                    return Err(fault);
                },
            };
            match state.catch_up(config, schedule.epoch) {
                Ok(()) => Ok(
                    Step {
                        phase: Phase::Publish { next_rotation: schedule.next_rotation },
                        sleep: None,
                    },
                ),
                Err(fault) => Err(fault),
            }
        },
        Phase::Publish { next_rotation } => {
            match state.publish(next_rotation) {
                Ok(()) => {},
                Err(fault) => {
                    return Err(fault);
                },
            }
            // Negative durations mean we're behind: then there is no wait.
            let sleep = next_rotation.delay_from(&now);
            Ok(Step { phase: Phase::Rotate { next_rotation }, sleep })
        },
        Phase::Rotate { next_rotation } => {
            let following = match next_rotation.checked_add_seconds(config.epoch_seconds as u64) {
                Some(following) => following,
                None => {
                    return Err(Fatal::TimeOutOfRange);
                },
            };
            match state.advance(config) {
                Ok(()) => Ok(Step { phase: Phase::Publish { next_rotation: following }, sleep: None }),
                Err(fault) => Err(fault),
            }
        },
    }
}

/// Settings for trying the service out: an arbitrary listener, epochs of a
/// second, and the range from 12 to 24.
pub fn test_config() -> (config: Config)
    ensures
        config.valid(),
        config.epoch_seconds == 1,
        config.first_epoch == 12,
        config.last_epoch == 24,
        config.epoch_base_time is None,
        !config.increase_nofile_limit,
        config.prometheus_listen is None,
{
    Config {
        listen: "127.0.0.1:8081".to_owned(),
        epoch_seconds: 1,
        first_epoch: 12,
        last_epoch: 24,
        epoch_base_time: None,
        increase_nofile_limit: false,
        prometheus_listen: None,
    }
}

/// Create an app instance for testing: a new state for the settings of
/// `test_config`, with a fixed next epoch time.
///
/// The state is asked for with exactly those settings, and the answer is
/// given its time by `at_test_time`.
pub fn test_app() -> (made: Result<OPRFServer, ppoprf::PPRFError>)
    ensures
        made matches Ok(state) && {
            &&& state.epoch == 12
            &&& active_tags(state.server) == Set::new(|tag: u8| 12 <= tag <= 24)
            &&& text_of(state.next_epoch_time) == Some("2023-03-22T21:46:35Z"@)
        },
{
    let config = test_config();
    at_test_time(OPRFServer::new(&config))
}

/// Gives a state that could be made the next epoch time that the trial
/// instance shows, and leaves its instance and its epoch alone. Where no
/// state could be made, the reason is handed on.
pub fn at_test_time(
    made: Result<OPRFServer, ppoprf::PPRFError>,
) -> (out: Result<OPRFServer, ppoprf::PPRFError>)
    ensures
        match made {
            Ok(state) => out matches Ok(shown) && shown.server == state.server && shown.epoch
                == state.epoch && text_of(shown.next_epoch_time) == Some(
                "2023-03-22T21:46:35Z"@,
            ),
            Err(fault) => out matches Err(handed) && handed == fault,
        },
{
    match made {
        Ok(state) => {
            let mut state = state;
            state.next_epoch_time = Some("2023-03-22T21:46:35Z".to_owned());
            Ok(state)
        },
        Err(fault) => Err(fault),
    }
}

/// In a state that serving may see, the current epoch lies in the range and
/// is served, no epoch outside the range is, and every epoch of the range
/// before the current one has been punctured.
pub proof fn lemma_earlier_epochs_are_punctured(state: OPRFServer, config: Config)
    requires
        state.wf(config),
    ensures
        config.first_epoch <= state.epoch <= config.last_epoch,
        active_tags(state.server).contains(state.epoch),
        forall|tag: u8|
            active_tags(state.server).contains(tag) ==> config.first_epoch <= tag
                <= config.last_epoch,
        forall|tag: u8|
            config.first_epoch <= tag < state.epoch ==> !active_tags(state.server).contains(tag),
{
}

} // verus!
