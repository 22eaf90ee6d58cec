//! Timer channel adapter: fires named schedules into event envelopes.

use vstd::prelude::*;
use vstd::string::StringExecFns;
use crate::error::ProviderError;
use crate::events::EventEnvelope;
use crate::events::Metadata;
use crate::events::md_insert;
use crate::events::new_event;
use crate::json::Json;
use crate::json::str_eq;
use crate::tenant::TenantCtx;

verus! {

/// Definition of a single schedule, keyed by a unique name.
#[derive(Debug, PartialEq, Eq)]
pub struct Schedule {
    /// Logical name of the schedule (e.g. `daily-report`).
    pub name: String,
    /// Cron or interval expression supplied by the deployer.
    pub cron: String,
    /// Topic emitted when the schedule fires.
    pub topic: String,
    /// Document emitted with the event.
    pub payload: Json,
}

/// Timer configuration: an ordered list of schedules.
#[derive(Debug, PartialEq, Eq)]
pub struct SchedulerConfig {
    pub schedules: Vec<Schedule>,
}

/// The first schedule named `name`, if any.
pub open spec fn find_schedule(schedules: Seq<Schedule>, name: Seq<char>) -> Option<Schedule>
    decreases schedules.len(),
{
    if schedules.len() == 0 {
        None
    } else if schedules[0].name@ == name {
        Some(schedules[0])
    } else {
        find_schedule(schedules.skip(1), name)
    }
}

/// The metadata of a fired schedule: its name and cron expression.
pub open spec fn timer_md_model(s: Schedule) -> Seq<(Seq<char>, Seq<char>)> {
    md_insert(md_insert(Seq::empty(), "schedule_name"@, s.name@), "cron"@, s.cron@)
}

/// Fires schedules by exact name into event envelopes.
pub struct TimerSource {
    config: SchedulerConfig,
}

impl TimerSource {
    /// The scheduler configuration this source serves.
    pub closed spec fn cfg(&self) -> SchedulerConfig {
        self.config
    }

    /// A source over the given schedules.
    pub fn new(config: SchedulerConfig) -> (r: TimerSource)
        ensures
            r.cfg() == config,
    {
        TimerSource { config }
    }

    /// Fires the schedule of the given name: the envelope reproduces the
    /// schedule's topic and payload verbatim, with the schedule name as
    /// subject and name and cron expression in the metadata. An unknown name
    /// is a `Config` error naming it. No secret resolution takes place.
    pub fn fire(&self, tenant: TenantCtx, schedule_name: &str) -> (r: Result<
        EventEnvelope,
        ProviderError,
    >)
        ensures
            match find_schedule(self.cfg().schedules@, schedule_name@) {
                None => r matches Err(e) && (e matches ProviderError::Config(m) && m@
                    == "unknown schedule "@ + schedule_name@),
                Some(s) => r matches Ok(e) && ({
                    &&& e.topic@ == s.topic@
                    &&& e.type_@ == "com.greentic.timer.generic.v1"@
                    &&& e.source@ == "timer-provider"@
                    &&& e.tenant == tenant
                    &&& e.subject matches Some(sub) && sub@ == s.name@
                    &&& e.correlation_id is None
                    &&& e.payload@ == s.payload@
                    &&& e.metadata@ == timer_md_model(s)
                }),
            },
    {
        let n = self.config.schedules.len();
        proof {
            assert(self.config.schedules@.skip(0) =~= self.config.schedules@);
        }
        let mut i: usize = 0;
        #[verifier::loop_isolation(false)]
        while i < n
            invariant
                0 <= i <= n,
                n == self.config.schedules@.len(),
                find_schedule(self.config.schedules@, schedule_name@) == find_schedule(
                    self.config.schedules@.skip(i as int),
                    schedule_name@,
                ),
            decreases n - i,
        {
            proof {
                assert(self.config.schedules@.skip(i as int)[0] == self.config.schedules@[
                    i as int]);
                assert(self.config.schedules@.skip(i as int).skip(1)
                    =~= self.config.schedules@.skip(i as int + 1));
            }
            if str_eq(self.config.schedules[i].name.as_str(), schedule_name) {
                let schedule = &self.config.schedules[i];
                let mut metadata = Metadata::new();
                metadata.insert(String::from_str("schedule_name"), schedule.name.clone());
                metadata.insert(String::from_str("cron"), schedule.cron.clone());
                return Ok(
                    new_event(
                        schedule.topic.clone(),
                        String::from_str("com.greentic.timer.generic.v1"),
                        String::from_str("timer-provider"),
                        tenant,
                        Some(schedule.name.clone()),
                        None,
                        schedule.payload.deep_clone(),
                        metadata,
                    ),
                );
            }
            i += 1;
        }
        proof {
            assert(self.config.schedules@.skip(n as int) =~= Seq::<Schedule>::empty());
        }
        Err(
            ProviderError::Config(
                String::from_str("unknown schedule ").concat(schedule_name),
            ),
        )
    }
}

} // verus!
