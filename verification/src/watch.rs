//! Building a change stream request: its target, pipeline and options, and
//! what a cluster-wide watch adds to them.

use vstd::prelude::*;

use crate::change_stream::ResumeToken;
use crate::ffi_context::SessionHandle;
use crate::telemetry::OperationTarget;

verus! {

/// What an aggregation runs against: a whole database, or a collection.
pub enum AggregateTarget {
    Database(String),
    Collection { db: String, coll: String },
}

/// The operation target of an aggregation target.
pub fn operation_target(t: &AggregateTarget) -> (r: OperationTarget)
    ensures
        match *t {
            AggregateTarget::Database(d) => r.database@ == d@ && r.collection is None,
            AggregateTarget::Collection { db, coll } => r.collection matches Some(c) && c@ == coll@
                && r.database@ == db@,
        },
{
    match t {
        AggregateTarget::Database(d) => OperationTarget { database: d.clone(), collection: None },
        AggregateTarget::Collection { db, coll } => OperationTarget {
            database: db.clone(),
            collection: Some(coll.clone()),
        },
    }
}

/// The change stream options a watch sets itself.
pub struct ChangeStreamSettings {
    /// Where to resume from.
    pub resume_after: Option<ResumeToken>,
    /// Whether to watch every database of the deployment.
    pub all_changes_for_cluster: Option<bool>,
}

/// A change stream request.
pub struct Watch {
    pub target: AggregateTarget,
    /// The stages that follow the `$changeStream` stage.
    pub pipeline: Vec<bson::Document>,
    pub options: Option<ChangeStreamSettings>,
    /// The explicit session to run in, if any.
    pub session: Option<SessionHandle>,
    /// Whether the request watches the whole deployment.
    pub cluster: bool,
}

impl Watch {
    /// A request to watch `target`, with no stages, options or session.
    pub fn new(target: AggregateTarget) -> (r: Watch)
        ensures
            r.target == target,
            r.pipeline@.len() == 0,
            r.options is None,
            r.session is None,
            !r.cluster,
    {
        Watch { target, pipeline: Vec::new(), options: None, session: None, cluster: false }
    }

    /// A request to watch the whole deployment, run against `admin`.
    pub fn new_cluster() -> (r: Watch)
        ensures
            r.target matches AggregateTarget::Database(d) && d@ == "admin"@,
            r.pipeline@.len() == 0,
            r.options is None,
            r.session is None,
            r.cluster,
    {
        Watch {
            target: AggregateTarget::Database(String::from_str("admin")),
            pipeline: Vec::new(),
            options: None,
            session: None,
            cluster: true,
        }
    }

    /// Replaces the stages that follow the `$changeStream` stage.
    pub fn pipeline(self, value: Vec<bson::Document>) -> (r: Watch)
        ensures
            r.pipeline@ == value@,
            r.target == self.target,
            r.options == self.options,
            r.session == self.session,
            r.cluster == self.cluster,
    {
        Watch { pipeline: value, ..self }
    }

    /// Sets where the stream resumes from.
    pub fn resume_after(self, value: Option<ResumeToken>) -> (r: Watch)
        ensures
            r.options matches Some(o) && o.resume_after == value && o.all_changes_for_cluster == match self.options {
                Some(p) => p.all_changes_for_cluster,
                None => None,
            },
            r.pipeline@ == self.pipeline@,
            r.target == self.target,
            r.session == self.session,
            r.cluster == self.cluster,
    {
        let Watch { target, pipeline, options, session, cluster } = self;
        let all = match options {
            Some(o) => o.all_changes_for_cluster,
            None => None,
        };
        Watch {
            target,
            pipeline,
            options: Some(ChangeStreamSettings { resume_after: value, all_changes_for_cluster: all }),
            session,
            cluster,
        }
    }

    /// Runs the request in an explicit session.
    pub fn session(self, session: SessionHandle) -> (r: Watch)
        ensures
            r.session == Some(session),
            r.pipeline@ == self.pipeline@,
            r.target == self.target,
            r.options == self.options,
            r.cluster == self.cluster,
    {
        Watch { session: Some(session), ..self }
    }

    /// The options the request is executed with: a cluster-wide watch asks
    /// for all changes of the cluster, creating the options if there were
    /// none; other requests keep their options.
    pub fn execution_options(self) -> (r: Option<ChangeStreamSettings>)
        ensures
            self.cluster ==> (r matches Some(o) && o.all_changes_for_cluster == Some(true) && o.resume_after == match self.options {
                Some(p) => p.resume_after,
                None => None,
            }),
            !self.cluster ==> r == self.options,
    {
        if self.cluster {
            match self.options {
                Some(o) => Some(ChangeStreamSettings { resume_after: o.resume_after, all_changes_for_cluster: Some(true) }),
                None => Some(ChangeStreamSettings { resume_after: None, all_changes_for_cluster: Some(true) }),
            }
        } else {
            self.options
        }
    }
}

} // verus!
