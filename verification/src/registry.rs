//! The flow registry: an in-memory table of in-flight authorization flows
//! plus a single "last error" slot.
//!
//! The registry is modelled as a map from flow id to the flow's data
//! (provider, start time in Unix milliseconds, status). Every mutating
//! operation states exactly how the map changes; notification payloads are
//! returned as values so that the caller can deliver them to its sink
//! outside of any critical section.

use vstd::prelude::*;
use vstd::map::*;

verus! {

/// OAuth token set handed through to the completion sink; the registry does
/// not interpret any of its fields.
pub struct OAuthTokens {
    pub access_token: String,
    pub refresh_token: Option<String>,
    pub expires_at: String,
    pub scope: String,
    pub token_type: String,
}

/// Outcome of an authorization flow as reported by the collaborator that
/// performed the token exchange.
pub struct OAuthResult {
    pub success: bool,
    pub provider: String,
    pub tokens: Option<OAuthTokens>,
    pub error: Option<String>,
    pub error_description: Option<String>,
}

/// Authentication status for one provider.
pub struct OAuthStatus {
    pub provider: String,
    pub is_authenticated: bool,
    pub expires_at: Option<String>,
    pub last_refresh: Option<String>,
}

/// Descriptive record for one identity provider.
pub struct OAuthProvider {
    pub name: String,
    pub display_name: String,
    pub enabled: bool,
}

/// Request to begin an authorization flow.
pub struct OAuthAuthRequest {
    pub provider: String,
    pub force_reauth: Option<bool>,
}

/// Request to log out from a provider.
pub struct OAuthLogoutRequest {
    pub provider: String,
    pub revoke_tokens: Option<bool>,
}

/// One tracked authorization attempt.
pub struct OAuthFlowState {
    pub flow_id: String,
    pub provider: String,
    /// Creation time in Unix milliseconds, supplied by the caller; kept for
    /// future expiry policies and never read by the registry itself.
    pub started_at_ms: u64,
    pub status: String,
}

/// The registry aggregate: the flow table and the last-error slot. The
/// caller owns it and guards it (for example with a mutex); no operation
/// here performs I/O, so no lock is ever held across a downstream call.
pub struct OAuthManagerState {
    pub active_flows: Vec<OAuthFlowState>,
    pub last_error: Option<String>,
}

/// What the table associates with a flow id: provider, start time in Unix
/// milliseconds, and status.
pub type FlowData = (Seq<char>, u64, Seq<char>);

/// The mathematical content of one flow record.
pub open spec fn flow_data(f: OAuthFlowState) -> FlowData {
    (f.provider@, f.started_at_ms, f.status@)
}

/// Flow ids are pairwise distinct, so the record list denotes a map.
pub open spec fn ids_unique(s: Seq<OAuthFlowState>) -> bool {
    forall|i: int, j: int| 0 <= i < j < s.len() ==> s[i].flow_id@ != s[j].flow_id@
}

/// The map a record list denotes: each present id maps to its record's data.
pub open spec fn table_of(s: Seq<OAuthFlowState>) -> Map<Seq<char>, FlowData> {
    Map::new(
        |k: Seq<char>| exists|i: int| 0 <= i < s.len() && s[i].flow_id@ == k,
        |k: Seq<char>|
            flow_data(s[choose|i: int| 0 <= i < s.len() && s[i].flow_id@ == k]),
    )
}

/// With distinct ids, the record at index `i` is what the table stores
/// under its id.
proof fn lemma_table_at(s: Seq<OAuthFlowState>, i: int)
    requires
        ids_unique(s),
        0 <= i < s.len(),
    ensures
        table_of(s).dom().contains(s[i].flow_id@),
        table_of(s)[s[i].flow_id@] == flow_data(s[i]),
{
    let k = s[i].flow_id@;
    assert(0 <= i < s.len() && s[i].flow_id@ == k);
    let j = choose|j: int| 0 <= j < s.len() && s[j].flow_id@ == k;
    if j < i {
        assert(s[j].flow_id@ != s[i].flow_id@);
    } else if i < j {
        assert(s[i].flow_id@ != s[j].flow_id@);
    }
}

/// An id held by no record is absent from the table.
proof fn lemma_table_absent(s: Seq<OAuthFlowState>, k: Seq<char>)
    requires
        forall|i: int| 0 <= i < s.len() ==> s[i].flow_id@ != k,
    ensures
        !table_of(s).dom().contains(k),
{
}

/// Removing the record at index `i` removes exactly its id from the table.
proof fn lemma_table_remove(s: Seq<OAuthFlowState>, i: int)
    requires
        ids_unique(s),
        0 <= i < s.len(),
    ensures
        ids_unique(s.remove(i)),
        forall|j: int| 0 <= j < s.remove(i).len() ==> s.remove(i)[j].flow_id@ != s[i].flow_id@,
        table_of(s.remove(i)) == table_of(s).remove(s[i].flow_id@),
{
    s.remove_ensures(i);
    let k0 = s[i].flow_id@;
    let s2 = s.remove(i);
    assert forall|a: int, b: int| 0 <= a < b < s2.len() implies s2[a].flow_id@ != s2[b].flow_id@ by {
        let oa = if a < i { a } else { a + 1 };
        let ob = if b < i { b } else { b + 1 };
        assert(s2[a] == s[oa]);
        assert(s2[b] == s[ob]);
        assert(oa < ob);
    }
    assert forall|j: int| 0 <= j < s2.len() implies s2[j].flow_id@ != k0 by {
        let oj = if j < i { j } else { j + 1 };
        assert(s2[j] == s[oj]);
        if oj < i {
            assert(s[oj].flow_id@ != s[i].flow_id@);
        } else {
            assert(s[i].flow_id@ != s[oj].flow_id@);
        }
    }
    assert forall|k: Seq<char>|
        table_of(s2).dom().contains(k) implies table_of(s).remove(k0).dom().contains(k) by {
        let j = choose|j: int| 0 <= j < s2.len() && s2[j].flow_id@ == k;
        let oj = if j < i { j } else { j + 1 };
        assert(s2[j] == s[oj]);
        assert(0 <= oj < s.len() && s[oj].flow_id@ == k);
        assert(k != k0);
    }
    assert forall|k: Seq<char>|
        table_of(s).remove(k0).dom().contains(k) implies table_of(s2).dom().contains(k) by {
        let j = choose|j: int| 0 <= j < s.len() && s[j].flow_id@ == k;
        assert(k != k0);
        assert(j != i);
        let nj = if j < i { j } else { j - 1 };
        assert(s2[nj] == s[j]);
        assert(0 <= nj < s2.len() && s2[nj].flow_id@ == k);
    }
    assert forall|k: Seq<char>|
        table_of(s2).dom().contains(k) implies table_of(s2)[k] == table_of(s).remove(k0)[k] by {
        let j = choose|j: int| 0 <= j < s2.len() && s2[j].flow_id@ == k;
        lemma_table_at(s2, j);
        let oj = if j < i { j } else { j + 1 };
        assert(s2[j] == s[oj]);
        lemma_table_at(s, oj);
        assert(k != k0);
    }
    assert(table_of(s2) =~= table_of(s).remove(k0));
}

/// Appending a record whose id is fresh inserts exactly that id.
proof fn lemma_table_push(s: Seq<OAuthFlowState>, f: OAuthFlowState)
    requires
        ids_unique(s),
        forall|i: int| 0 <= i < s.len() ==> s[i].flow_id@ != f.flow_id@,
    ensures
        ids_unique(s.push(f)),
        table_of(s.push(f)) == table_of(s).insert(f.flow_id@, flow_data(f)),
{
    let s2 = s.push(f);
    let k0 = f.flow_id@;
    assert forall|a: int, b: int| 0 <= a < b < s2.len() implies s2[a].flow_id@ != s2[b].flow_id@ by {
        if b < s.len() {
            assert(s2[a] == s[a] && s2[b] == s[b]);
        } else {
            assert(s2[a] == s[a] && s2[b] == f);
        }
    }
    assert forall|k: Seq<char>|
        table_of(s2).dom().contains(k) implies table_of(s).insert(k0, flow_data(f)).dom().contains(
        k,
    ) by {
        let j = choose|j: int| 0 <= j < s2.len() && s2[j].flow_id@ == k;
        if j < s.len() {
            assert(s2[j] == s[j]);
            assert(0 <= j < s.len() && s[j].flow_id@ == k);
        } else {
            assert(s2[j] == f);
        }
    }
    assert forall|k: Seq<char>|
        table_of(s).insert(k0, flow_data(f)).dom().contains(k) implies table_of(s2).dom().contains(
        k,
    ) by {
        if k == k0 {
            assert(s2[s.len() as int] == f);
            assert(0 <= s.len() < s2.len() && s2[s.len() as int].flow_id@ == k);
        } else {
            let j = choose|j: int| 0 <= j < s.len() && s[j].flow_id@ == k;
            assert(s2[j] == s[j]);
            assert(0 <= j < s2.len() && s2[j].flow_id@ == k);
        }
    }
    assert forall|k: Seq<char>|
        table_of(s2).dom().contains(k) implies table_of(s2)[k] == table_of(s).insert(
        k0,
        flow_data(f),
    )[k] by {
        let j = choose|j: int| 0 <= j < s2.len() && s2[j].flow_id@ == k;
        lemma_table_at(s2, j);
        if j < s.len() {
            assert(s2[j] == s[j]);
            lemma_table_at(s, j);
            assert(k != k0);
        } else {
            assert(s2[j] == f);
        }
    }
    assert(table_of(s2) =~= table_of(s).insert(k0, flow_data(f)));
}

/// Overwriting a key after removing it is the same as overwriting it outright.
proof fn lemma_remove_then_insert<K, V>(m: Map<K, V>, k: K, v: V)
    ensures
        m.remove(k).insert(k, v) == m.insert(k, v),
{
    assert(m.remove(k).insert(k, v) =~= m.insert(k, v));
}

/// Removing an absent key changes nothing.
proof fn lemma_remove_absent<K, V>(m: Map<K, V>, k: K)
    requires
        !m.dom().contains(k),
    ensures
        m.remove(k) == m,
{
    assert(m.remove(k) =~= m);
}

/// Payload of the `oauth-flow-started` notification.
pub struct FlowStartedNote {
    pub flow_id: String,
    pub provider: String,
    pub force_reauth: bool,
}

/// Payload of the `oauth-flow-completed` notification.
pub struct FlowCompletedNote {
    pub flow_id: String,
    pub result: OAuthResult,
}

/// Payload of the `oauth-error` notification.
pub struct ErrorNote {
    pub flow_id: Option<String>,
    pub error: String,
    pub error_description: Option<String>,
}

impl FlowStartedNote {
    /// The event this payload is delivered under.
    pub fn event_name(&self) -> (r: &'static str)
        ensures
            r@ == "oauth-flow-started"@,
    {
        "oauth-flow-started"
    }
}

impl FlowCompletedNote {
    /// The event this payload is delivered under.
    pub fn event_name(&self) -> (r: &'static str)
        ensures
            r@ == "oauth-flow-completed"@,
    {
        "oauth-flow-completed"
    }
}

impl ErrorNote {
    /// The event this payload is delivered under.
    pub fn event_name(&self) -> (r: &'static str)
        ensures
            r@ == "oauth-error"@,
    {
        "oauth-error"
    }
}

/// Relies on uuid's `Uuid::new_v4` and its `Display` impl: a fresh random
/// (version 4) identifier rendered in the hyphenated form, which is always
/// 36 ASCII characters. Nothing is assumed of the randomness itself, so two
/// calls may (with negligible probability) return the same string.
#[verifier::external_body]
fn new_flow_id() -> (r: String)
    ensures
        r@.len() == 36,
{
    uuid::Uuid::new_v4().to_string()
}

/// Finds the index of the record holding `flow_id`, if any.
fn find_flow_index(flows: &Vec<OAuthFlowState>, flow_id: &String) -> (r: Option<usize>)
    ensures
        (r matches Some(i) ==> i < flows@.len() && flows@[i as int].flow_id@ == flow_id@),
        (r is None ==> forall|j: int| 0 <= j < flows@.len() ==> flows@[j].flow_id@ != flow_id@),
{
    let mut i: usize = 0;
    while i < flows.len()
        invariant
            i <= flows@.len(),
            forall|j: int| 0 <= j < i ==> flows@[j].flow_id@ != flow_id@,
        decreases flows@.len() - i,
    {
        if flows[i].flow_id == *flow_id {
            return Some(i);
        }
        i += 1;
    }
    None
}

impl OAuthManagerState {
    /// Flow ids are pairwise distinct.
    pub open spec fn wf(self) -> bool {
        ids_unique(self.active_flows@)
    }

    /// The flow table as a map from id to flow data.
    pub open spec fn table(self) -> Map<Seq<char>, FlowData> {
        table_of(self.active_flows@)
    }

    /// Records `flow_id` as a fresh flow with status "initiated" (replacing
    /// any record that already held that id) and builds the start
    /// notification.
    pub fn begin_flow(
        &mut self,
        flow_id: String,
        provider: String,
        started_at_ms: u64,
        force_reauth: bool,
    ) -> (note: FlowStartedNote)
        requires
            old(self).wf(),
        ensures
            final(self).wf(),
            final(self).table() == old(self).table().insert(
                flow_id@,
                (provider@, started_at_ms, "initiated"@),
            ),
            final(self).last_error == old(self).last_error,
            note.flow_id@ == flow_id@,
            note.provider@ == provider@,
            note.force_reauth == force_reauth,
    {
        let ghost s0 = self.active_flows@;
        let note = FlowStartedNote {
            flow_id: flow_id.clone(),
            provider: provider.clone(),
            force_reauth,
        };
        if let Some(i) = find_flow_index(&self.active_flows, &flow_id) {
            let _ = self.active_flows.remove(i);
            proof {
                lemma_table_remove(s0, i as int);
            }
        }
        let ghost s1 = self.active_flows@;
        let record = OAuthFlowState {
            flow_id,
            provider,
            started_at_ms,
            status: String::from_str("initiated"),
        };
        let ghost grec = record;
        self.active_flows.push(record);
        proof {
            lemma_table_push(s1, grec);
            lemma_remove_then_insert(table_of(s0), grec.flow_id@, flow_data(grec));
        }
        note
    }

    /// Begins a flow under a newly generated id and returns the id together
    /// with the start notification. The caller supplies the creation time;
    /// the id comes from the random generator, so the one fact promised of
    /// it here is its length.
    pub fn oauth_authenticate(&mut self, request: &OAuthAuthRequest, started_at_ms: u64) -> (r: (
        String,
        FlowStartedNote,
    ))
        requires
            old(self).wf(),
        ensures
            final(self).wf(),
            final(self).last_error == old(self).last_error,
            r.0@.len() == 36,
            final(self).table() == old(self).table().insert(
                r.0@,
                (request.provider@, started_at_ms, "initiated"@),
            ),
            r.1.flow_id@ == r.0@,
            r.1.provider@ == request.provider@,
            r.1.force_reauth == request.force_reauth.unwrap_or(false),
    {
        let force_reauth = request.force_reauth.unwrap_or(false);
        let flow_id = new_flow_id();
        let note = self.begin_flow(
            flow_id.clone(),
            request.provider.clone(),
            started_at_ms,
            force_reauth,
        );
        (flow_id, note)
    }

    /// Looks a flow's status up; an unknown id is a normal "not found", not
    /// an error.
    pub fn oauth_get_flow_status(&self, flow_id: &String) -> (r: Option<String>)
        requires
            self.wf(),
        ensures
            (r is Some <==> self.table().dom().contains(flow_id@)),
            (r matches Some(s) ==> s@ == self.table()[flow_id@].2),
    {
        match find_flow_index(&self.active_flows, flow_id) {
            Some(i) => {
                proof {
                    lemma_table_at(self.active_flows@, i as int);
                }
                Some(self.active_flows[i].status.clone())
            },
            None => {
                proof {
                    lemma_table_absent(self.active_flows@, flow_id@);
                }
                None
            },
        }
    }

    /// Overwrites the status of `flow_id` if that flow exists and silently
    /// does nothing if it does not: no error is surfaced and no record is
    /// created.
    pub fn oauth_update_flow_status(&mut self, flow_id: &String, status: String)
        requires
            old(self).wf(),
        ensures
            final(self).wf(),
            final(self).last_error == old(self).last_error,
            (old(self).table().dom().contains(flow_id@) ==> final(self).table() == old(
                self,
            ).table().insert(
                flow_id@,
                (
                    old(self).table()[flow_id@].0,
                    old(self).table()[flow_id@].1,
                    status@,
                ),
            )),
            (!old(self).table().dom().contains(flow_id@) ==> final(self).table() == old(
                self,
            ).table()),
    {
        let ghost s0 = self.active_flows@;
        match find_flow_index(&self.active_flows, flow_id) {
            Some(i) => {
                proof {
                    lemma_table_at(s0, i as int);
                    lemma_table_remove(s0, i as int);
                }
                let rec = self.active_flows.remove(i);
                let ghost s1 = self.active_flows@;
                let updated = OAuthFlowState {
                    flow_id: rec.flow_id,
                    provider: rec.provider,
                    started_at_ms: rec.started_at_ms,
                    status,
                };
                let ghost gupd = updated;
                self.active_flows.push(updated);
                proof {
                    lemma_table_push(s1, gupd);
                    lemma_remove_then_insert(table_of(s0), gupd.flow_id@, flow_data(gupd));
                }
            },
            None => {
                proof {
                    lemma_table_absent(s0, flow_id@);
                }
            },
        }
    }

    /// Removes `flow_id` from the table whether or not it was present, and
    /// builds the single completion notification carrying the given result.
    pub fn oauth_complete_flow(&mut self, flow_id: String, result: OAuthResult) -> (note:
        FlowCompletedNote)
        requires
            old(self).wf(),
        ensures
            final(self).wf(),
            final(self).last_error == old(self).last_error,
            final(self).table() == old(self).table().remove(flow_id@),
            note.flow_id@ == flow_id@,
            note.result == result,
    {
        let ghost s0 = self.active_flows@;
        match find_flow_index(&self.active_flows, &flow_id) {
            Some(i) => {
                let _ = self.active_flows.remove(i);
                proof {
                    lemma_table_remove(s0, i as int);
                }
            },
            None => {
                proof {
                    lemma_table_absent(s0, flow_id@);
                    lemma_remove_absent(table_of(s0), flow_id@);
                }
            },
        }
        FlowCompletedNote { flow_id, result }
    }

    /// Overwrites the last-error slot, removes the named flow if an id is
    /// supplied, and builds the error notification carrying the full payload
    /// whether or not that flow existed.
    pub fn oauth_handle_error(
        &mut self,
        flow_id: Option<String>,
        error: String,
        error_description: Option<String>,
    ) -> (note: ErrorNote)
        requires
            old(self).wf(),
        ensures
            final(self).wf(),
            final(self).last_error == (Some(error)),
            (flow_id matches Some(id) ==> final(self).table() == old(self).table().remove(id@)),
            (flow_id is None ==> final(self).table() == old(self).table()),
            note.flow_id == flow_id,
            note.error == error,
            note.error_description == error_description,
    {
        self.last_error = Some(error.clone());
        let ghost s0 = self.active_flows@;
        match &flow_id {
            Some(id) => {
                match find_flow_index(&self.active_flows, id) {
                    Some(i) => {
                        let _ = self.active_flows.remove(i);
                        proof {
                            lemma_table_remove(s0, i as int);
                        }
                    },
                    None => {
                        proof {
                            lemma_table_absent(s0, id@);
                            lemma_remove_absent(table_of(s0), id@);
                        }
                    },
                }
            },
            None => {},
        }
        ErrorNote { flow_id, error, error_description }
    }

    /// Returns the most recent error, if any.
    pub fn oauth_get_last_error(&self) -> (r: Option<String>)
        ensures
            r == self.last_error,
    {
        match &self.last_error {
            Some(e) => Some(e.clone()),
            None => None,
        }
    }

    /// Clears the last-error slot; the flow table is untouched.
    pub fn oauth_clear_errors(&mut self)
        ensures
            final(self).wf() == old(self).wf(),
            final(self).last_error is None,
            final(self).table() == old(self).table(),
            final(self).active_flows == old(self).active_flows,
    {
        self.last_error = None;
    }
}

impl Default for OAuthManagerState {
    /// An empty registry: no flows, no recorded error.
    fn default() -> (r: Self)
        ensures
            r.wf(),
            r.active_flows@.len() == 0,
            r.last_error is None,
            r.table() == Map::<Seq<char>, FlowData>::empty(),
    {
        let r = OAuthManagerState { active_flows: Vec::new(), last_error: None };
        proof {
            assert(r.table() =~= Map::<Seq<char>, FlowData>::empty());
        }
        r
    }
}

/// Law: beginning two flows under distinct ids leaves both retrievable, each
/// with exactly the data it was begun with; with the data `begin_flow`
/// inserts, that status is "initiated".
pub proof fn lemma_distinct_begun_flows_retrievable(
    t: Map<Seq<char>, FlowData>,
    id1: Seq<char>,
    v1: FlowData,
    id2: Seq<char>,
    v2: FlowData,
)
    requires
        id1 != id2,
    ensures
        t.insert(id1, v1).insert(id2, v2).dom().contains(id1),
        t.insert(id1, v1).insert(id2, v2).dom().contains(id2),
        t.insert(id1, v1).insert(id2, v2)[id1] == v1,
        t.insert(id1, v1).insert(id2, v2)[id2] == v2,
{
}

/// Law: a flow just begun is present in the table with status "initiated",
/// so an immediate lookup reports exactly that status.
pub proof fn lemma_begun_flow_initiated(
    t: Map<Seq<char>, FlowData>,
    id: Seq<char>,
    provider: Seq<char>,
    started_at_ms: u64,
)
    ensures
        t.insert(id, (provider, started_at_ms, "initiated"@)).dom().contains(id),
        t.insert(id, (provider, started_at_ms, "initiated"@))[id].2 == "initiated"@,
{
}

/// Law: completing a flow is idempotent: removing an id twice leaves the
/// table exactly as removing it once does.
pub proof fn lemma_complete_flow_idempotent(t: Map<Seq<char>, FlowData>, id: Seq<char>)
    ensures
        t.remove(id).remove(id) == t.remove(id),
{
    assert(t.remove(id).remove(id) =~= t.remove(id));
}

} // verus!
