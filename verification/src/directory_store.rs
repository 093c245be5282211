//! What the daemon keeps beside messages: heard announces, the SDK domain
//! snapshot, the blocklist, the access roster, and the legacy store of
//! propagated packets.
use vstd::prelude::*;
use crate::attachment_store::{len_i64, sat_add_i64, saturating_add_i64};
use crate::error::{invalid, StoreError};
use crate::message_rows::{announce_row, count_of, inventory_row};
use crate::message_store::nonneg_u64;
use crate::outside::{
    hex_encode, json_reserialize, json_reserialized, json_string_array, json_string_array_parsed,
    parse_json_string_array, sha256, sha256_digest, spec_hex_encode, system_unix_secs,
};
use crate::records::{AnnounceRecord, PropagationInventoryRecord, RbacRosterRow};
use crate::sql::{col_blob, col_int, col_opt_int, col_text, ArgView, SqlArg, SqlCall, SqlValue};
use crate::store::{blob_arg, int_arg, opt_text_arg, opt_str, text_arg, MessagesStore};
use crate::text::{ascii_lower, split_commas, split_on_commas, to_ascii_lower, trim_str, trimmed, views};

verus! {

/// The key under which the SDK domain snapshot is stored.
pub const SDK_DOMAIN_SNAPSHOT_KEY: &'static str = "sdk_domains.v1";

/// The current time in whole seconds.
fn clock_now() -> (r: i64) {
    match system_unix_secs() {
        Some(s) => s as i64,
        None => 0,
    }
}

/// The grants a roster entry holds, from how they are stored: a JSON array
/// of strings, or — as older entries were written — comma-separated names,
/// each trimmed; empty text holds none.
pub open spec fn stored_grants(text: Seq<char>) -> Seq<Seq<char>> {
    if text.len() == 0 {
        Seq::empty()
    } else if text[0] == '[' {
        match json_string_array_parsed(text) {
            Some(g) => g,
            None => Seq::empty(),
        }
    } else {
        split_commas(text).map_values(|p: Seq<char>| trimmed(p))
    }
}

/// The grants stored as `text`.
pub fn grants_of(text: &str) -> (r: Vec<String>)
    ensures
        views(r@) == stored_grants(text@),
{
    let chars = crate::text::chars_of(text);
    if chars.len() == 0 {
        let none: Vec<String> = Vec::new();
        assert(views(none@) =~= Seq::<Seq<char>>::empty());
        return none;
    }
    if chars[0] == '[' {
        return match parse_json_string_array(text) {
            Some(g) => g,
            None => {
                let none: Vec<String> = Vec::new();
                assert(views(none@) =~= Seq::<Seq<char>>::empty());
                none
            },
        };
    }
    let pieces = split_on_commas(text);
    let mut out: Vec<String> = Vec::new();
    let mut i: usize = 0;
    while i < pieces.len()
        invariant
            i <= pieces.len(),
            views(pieces@) == split_commas(text@),
            views(out@) == split_commas(text@).subrange(0, i as int).map_values(|p: Seq<char>| trimmed(p)),
        decreases pieces.len() - i,
    {
        let t = trim_str(pieces[i].as_str());
        let ghost old_out = out@;
        let ghost tv = t@;
        out.push(t);
        proof {
            let all = split_commas(text@);
            assert(views(pieces@)[i as int] == pieces@[i as int]@);
            assert(tv == trimmed(all[i as int]));
            assert(views(out@) =~= views(old_out).push(tv));
            assert(all.subrange(0, i + 1).map_values(|p: Seq<char>| trimmed(p)) =~= all.subrange(
                0,
                i as int,
            ).map_values(|p: Seq<char>| trimmed(p)).push(trimmed(all[i as int])));
        }
        i = i + 1;
    }
    proof {
        assert(split_commas(text@).subrange(0, i as int) =~= split_commas(text@));
    }
    out
}

/// The id of a legacy propagated packet: the first sixteen bytes of its
/// SHA-256, in lowercase hex.
pub open spec fn packet_id_of(bytes: Seq<u8>) -> Seq<char> {
    spec_hex_encode(sha256(bytes).subrange(0, 16))
}

/// `packet_id_of` computed.
pub fn propagation_packet_id(bytes: &[u8]) -> (r: String)
    ensures
        r@ == packet_id_of(bytes@),
        r@.len() == 32,
        crate::text::all_lower_hex(r@),
{
    let digest = sha256_digest(bytes);
    let mut prefix: Vec<u8> = Vec::new();
    let mut i: usize = 0;
    while i < 16
        invariant
            i <= 16,
            digest@.len() == 32,
            prefix@ == digest@.subrange(0, i as int),
        decreases 16 - i,
    {
        prefix.push(digest[i]);
        assert(digest@.subrange(0, i + 1) =~= digest@.subrange(0, i as int).push(digest@[i as int]));
        i = i + 1;
    }
    proof {
        crate::laws::hex_encoding_is_lowercase_pairs(prefix@);
    }
    hex_encode(prefix.as_slice())
}

/// When a packet received at `now` expires: after `max_age_secs`, capped to
/// `i64` and saturating.
pub open spec fn packet_expiry(now: i64, max_age_secs: u64) -> i64 {
    sat_add_i64(now, if max_age_secs > i64::MAX { i64::MAX } else { max_age_secs as i64 })
}

/// `packet_expiry` computed.
pub fn packet_expires_at(now: i64, max_age_secs: u64) -> (r: i64)
    ensures
        r == packet_expiry(now, max_age_secs),
{
    let age = if max_age_secs > i64::MAX as u64 {
        i64::MAX
    } else {
        max_age_secs as i64
    };
    saturating_add_i64(now, age)
}

/// An optional carried value as a parameter.
fn opt_value_arg(v: &Option<rusqlite::types::Value>) -> (a: SqlArg)
    ensures
        v is None ==> a == SqlArg::Null,
        *v matches Some(x) ==> a == SqlArg::Value(x),
{
    match v {
        Some(x) => SqlArg::Value(x.clone()),
        None => SqlArg::Null,
    }
}

/// An optional `u32` as a parameter.
fn opt_u32_param(v: Option<u32>) -> (a: SqlArg) {
    crate::attachment_store::opt_u32_arg(v)
}

impl MessagesStore {
    // ── Announces ───────────────────────────────────────────────────────

    /// Stores an announce, replacing one with its id; a stamp cost it carries
    /// is learned for its peer as of its time.
    pub fn insert_announce(&mut self, record: &AnnounceRecord) -> (r: Result<(), StoreError>)
        ensures
            (record.stamp_cost matches Some(c) && !crate::ticket_store::peer_cost_ok(record.peer@, c)) ==> r is Err,
    {
        let capabilities = json_string_array(record.capabilities.as_slice());
        self.exec(
            "INSERT OR REPLACE INTO announces (id, peer, timestamp, name, name_source, first_seen, seen_count, app_data_hex, capabilities, rssi, snr, q, stamp_cost, stamp_cost_flexibility, peering_cost) VALUES (?1, ?2, ?3, ?4, ?5, ?6, ?7, ?8, ?9, ?10, ?11, ?12, ?13, ?14, ?15)",
            &[
                text_arg(record.id.as_str()),
                text_arg(record.peer.as_str()),
                int_arg(record.timestamp),
                opt_text_arg(opt_str(&record.name)),
                opt_text_arg(opt_str(&record.name_source)),
                int_arg(record.first_seen),
                int_arg(record.seen_count as i64),
                opt_text_arg(opt_str(&record.app_data_hex)),
                text_arg(capabilities.as_str()),
                opt_value_arg(&record.rssi),
                opt_value_arg(&record.snr),
                opt_value_arg(&record.q),
                opt_u32_param(record.stamp_cost),
                opt_u32_param(record.stamp_cost_flexibility),
                opt_u32_param(record.peering_cost),
            ],
        )?;
        match record.stamp_cost {
            Some(cost) => self.learn_peer_stamp_cost(record.peer.as_str(), cost, record.timestamp),
            None => Ok(()),
        }
    }

    /// Announces, newest first, at most `limit`: all of them, or those before
    /// `before_ts` — or, with `before_id`, before that announce at the same time.
    pub fn list_announces(&mut self, limit: usize, before_ts: Option<i64>, before_id: Option<&str>) -> (r: Result<
        Vec<AnnounceRecord>,
        StoreError,
    >) {
        let lim = int_arg(limit as i64);
        let rows = match before_ts {
            Some(ts) => match before_id {
                Some(id) => self.rows(
                    "SELECT id, peer, timestamp, name, name_source, first_seen, seen_count, app_data_hex, capabilities, rssi, snr, q, stamp_cost, stamp_cost_flexibility, peering_cost FROM announces WHERE (timestamp < ?1 OR (timestamp = ?1 AND id < ?2)) ORDER BY timestamp DESC, id DESC LIMIT ?3",
                    &[int_arg(ts), text_arg(id), lim],
                )?,
                None => self.rows(
                    "SELECT id, peer, timestamp, name, name_source, first_seen, seen_count, app_data_hex, capabilities, rssi, snr, q, stamp_cost, stamp_cost_flexibility, peering_cost FROM announces WHERE timestamp < ?1 ORDER BY timestamp DESC, id DESC LIMIT ?2",
                    &[int_arg(ts), lim],
                )?,
            },
            None => self.rows(
                "SELECT id, peer, timestamp, name, name_source, first_seen, seen_count, app_data_hex, capabilities, rssi, snr, q, stamp_cost, stamp_cost_flexibility, peering_cost FROM announces ORDER BY timestamp DESC LIMIT ?1",
                &[lim],
            )?,
        };
        let mut out: Vec<AnnounceRecord> = Vec::new();
        let mut i: usize = 0;
        while i < rows.len()
            invariant
                i <= rows.len(),
            decreases rows.len() - i,
        {
            out.push(announce_row(rows[i].as_slice())?);
            i = i + 1;
        }
        Ok(out)
    }

    /// Deletes every announce.
    pub fn clear_announces(&mut self) -> (r: Result<(), StoreError>) {
        self.exec("DELETE FROM announces", &[])?;
        Ok(())
    }

    // ── The SDK domain snapshot ─────────────────────────────────────────

    /// Stores the SDK domain snapshot, given as JSON text, in compact form.
    pub fn put_sdk_domain_snapshot(&mut self, snapshot_json: &str) -> (r: Result<(), StoreError>)
        ensures
            json_reserialized(snapshot_json@) is None ==> (r matches Err(e) && e is InvalidParameter),
            json_reserialized(snapshot_json@) is None ==> final(self)@ == old(self)@,
    {
        let compact = match json_reserialize(snapshot_json) {
            Some(c) => c,
            None => return Err(invalid("SDK domain snapshot is not JSON")),
        };
        self.exec(
            "INSERT INTO sdk_domain_state (domain, state_json) VALUES (?1, ?2)
             ON CONFLICT(domain) DO UPDATE SET state_json = excluded.state_json",
            &[text_arg(SDK_DOMAIN_SNAPSHOT_KEY), text_arg(compact.as_str())],
        )?;
        Ok(())
    }

    /// The SDK domain snapshot as compact JSON text, if one is stored; stored
    /// text that is not JSON is an error.
    pub fn get_sdk_domain_snapshot(&mut self) -> (r: Result<Option<String>, StoreError>) {
        let stored = self.opt_text_query(
            "SELECT state_json FROM sdk_domain_state WHERE domain = ?1 LIMIT 1",
            &[text_arg(SDK_DOMAIN_SNAPSHOT_KEY)],
        )?;
        match stored {
            Some(text) => match json_reserialize(text.as_str()) {
                Some(c) => Ok(Some(c)),
                None => Err(StoreError::InvalidColumn(0)),
            },
            None => Ok(None),
        }
    }

    /// Deletes the SDK domain snapshot.
    pub fn clear_sdk_domain_snapshot(&mut self) -> (r: Result<(), StoreError>) {
        self.exec("DELETE FROM sdk_domain_state WHERE domain = ?1", &[text_arg(SDK_DOMAIN_SNAPSHOT_KEY)])?;
        Ok(())
    }

    // ── The blocklist ───────────────────────────────────────────────────

    /// Blocks a peer; true when it was not blocked before.
    pub fn block_peer(&mut self, identity_hash: &str) -> (r: Result<bool, StoreError>)
        ensures
            final(self)@.len() == old(self)@.len() + 1,
            final(self)@.drop_last() == old(self)@,
            exists|now: i64| #[trigger] crate::store::change_reported(final(self)@.last(), BLOCK_PEER_SQL@, block_args(identity_hash@, now), r),
    {
        let now = clock_now();
        let block_params = [text_arg(identity_hash), int_arg(now)];
        assert(crate::sql::args_view(block_params@) =~= block_args(identity_hash@, now));
        let changed = self.exec(BLOCK_PEER_SQL, &block_params);
        let r = match changed {
            Ok(n) => Ok(n > 0),
            Err(e) => Err(e),
        };
        assert(crate::store::change_reported(self@.last(), BLOCK_PEER_SQL@, block_args(identity_hash@, now), r));
        r
    }

    /// Unblocks a peer; true when it was blocked.
    pub fn unblock_peer(&mut self, identity_hash: &str) -> (r: Result<bool, StoreError>)
        ensures
            final(self)@.len() == old(self)@.len() + 1,
            final(self)@.drop_last() == old(self)@,
            crate::store::change_reported(final(self)@.last(), UNBLOCK_PEER_SQL@, seq![ArgView::Text(identity_hash@)], r),
    {
        let unblock_args = [text_arg(identity_hash)];
        assert(crate::sql::args_view(unblock_args@) =~= seq![ArgView::Text(identity_hash@)]);
        let changed = self.exec(UNBLOCK_PEER_SQL, &unblock_args);
        match changed {
            Ok(n) => Ok(n > 0),
            Err(e) => Err(e),
        }
    }

    /// The blocked peers, in the order they were blocked.
    pub fn blocked_peers(&mut self) -> (r: Result<Vec<String>, StoreError>) {
        let rows = self.rows("SELECT identity_hash FROM blocked_peers ORDER BY blocked_at", &[])?;
        crate::message_store::ids_of(&rows, rows.len())
    }

    /// Whether a peer is blocked.
    pub fn is_blocked(&mut self, identity_hash: &str) -> (r: Result<bool, StoreError>) {
        let count = self.int_query(
            "SELECT COUNT(*) FROM blocked_peers WHERE identity_hash = ?1",
            &[text_arg(identity_hash)],
        )?;
        Ok(count > 0)
    }

    // ── The access roster ───────────────────────────────────────────────

    /// Every roster entry, with its role name as stored and its grants read
    /// back from their stored form.
    pub fn load_rbac_roster(&mut self) -> (r: Result<Vec<RbacRosterRow>, StoreError>) {
        let rows = self.rows("SELECT identity_hash, role, label, grants FROM rbac_roster", &[])?;
        let mut out: Vec<RbacRosterRow> = Vec::new();
        let mut i: usize = 0;
        while i < rows.len()
            invariant
                i <= rows.len(),
            decreases rows.len() - i,
        {
            let row = rows[i].as_slice();
            let identity_hash = col_text(row, 0)?;
            let role = col_text(row, 1)?;
            let label = col_text(row, 2)?;
            let grants_text = col_text(row, 3)?;
            let grants = grants_of(grants_text.as_str());
            out.push(RbacRosterRow { identity_hash, role, label, grants });
            i = i + 1;
        }
        Ok(out)
    }

    /// Stores a roster entry under its identity hash in lowercase, with its
    /// grants as a JSON array, replacing any entry under that hash.
    pub fn upsert_rbac_entry(&mut self, entry: &RbacRosterRow) -> (r: Result<(), StoreError>) {
        let normalized = to_ascii_lower(entry.identity_hash.as_str());
        let grants = json_string_array(entry.grants.as_slice());
        self.exec(
            "INSERT OR REPLACE INTO rbac_roster (identity_hash, role, label, grants) VALUES (?1, ?2, ?3, ?4)",
            &[
                text_arg(normalized.as_str()),
                text_arg(entry.role.as_str()),
                text_arg(entry.label.as_str()),
                text_arg(grants.as_str()),
            ],
        )?;
        Ok(())
    }

    /// Deletes the roster entry of an identity, matched in lowercase; true
    /// when one existed.
    pub fn remove_rbac_entry(&mut self, identity_hash: &str) -> (r: Result<bool, StoreError>) {
        let normalized = to_ascii_lower(identity_hash);
        let changed = self.exec("DELETE FROM rbac_roster WHERE identity_hash = ?1", &[text_arg(normalized.as_str())])?;
        Ok(changed > 0)
    }

    // ── The legacy propagation store ────────────────────────────────────

    /// Stores a propagated packet for a destination under its deterministic
    /// id, expiring `max_age_secs` from now; false when it is stored already.
    pub fn propagation_ingest(
        &mut self,
        dest_hash: &str,
        lxmf_bytes: &[u8],
        source_hash: Option<&str>,
        max_age_secs: u64,
    ) -> (r: Result<bool, StoreError>)
        ensures
            final(self)@.len() == old(self)@.len() + 1,
            final(self)@.drop_last() == old(self)@,
            exists|now: i64| #[trigger] packet_stored(final(self)@.last(), dest_hash@, lxmf_bytes@, source_hash, now, max_age_secs, r),
    {
        let now = clock_now();
        let expires_at = packet_expires_at(now, max_age_secs);
        let packet_id = propagation_packet_id(lxmf_bytes);
        let store_args = [
            text_arg(packet_id.as_str()),
            text_arg(dest_hash),
            blob_arg(lxmf_bytes),
            opt_text_arg(source_hash),
            int_arg(now),
            int_arg(expires_at),
            int_arg(len_i64(lxmf_bytes.len())),
        ];
        assert(crate::sql::args_view(store_args@) =~= packet_args(dest_hash@, lxmf_bytes@, source_hash, now, max_age_secs));
        let changed = self.exec(PACKET_STORE_SQL, &store_args);
        let r = match changed {
            Ok(n) => Ok(n > 0),
            Err(e) => Err(e),
        };
        assert(packet_stored(self@.last(), dest_hash@, lxmf_bytes@, source_hash, now, max_age_secs, r));
        r
    }

    /// The packets queued for a destination, oldest first.
    pub fn propagation_fetch(&mut self, dest_hash: &str) -> (r: Result<Vec<Vec<u8>>, StoreError>)
        ensures
            final(self)@.len() == old(self)@.len() + 1,
            final(self)@.drop_last() == old(self)@,
            r matches Ok(out) ==> packets_fetched(final(self)@.last(), dest_hash@, out@),
    {
        let fetch_args = [text_arg(dest_hash)];
        assert(crate::sql::args_view(fetch_args@) =~= seq![ArgView::Text(dest_hash@)]);
        let rows = self.rows(PACKET_FETCH_SQL, &fetch_args)?;
        let ghost fetched = self@;
        let mut out: Vec<Vec<u8>> = Vec::new();
        let mut i: usize = 0;
        while i < rows.len()
            invariant
                self@ == fetched,
                fetched.len() == old(self)@.len() + 1,
                fetched.drop_last() == old(self)@,
                i <= rows.len(),
                out@.len() == i,
                forall|k: int| 0 <= k < i ==> crate::sql::opt_blob_col(rows@[k]@, 0) == Some((#[trigger] out@[k])@),
            decreases rows.len() - i,
        {
            out.push(col_blob(rows[i].as_slice(), 0)?);
            i = i + 1;
        }
        proof {
            assert forall|k: int| 0 <= k < out@.len() implies crate::sql::opt_blob_col(
                crate::sql::rows_view(rows@)[k],
                0,
            ) == Some((#[trigger] out@[k])@) by {
                assert(crate::sql::rows_view(rows@)[k] == rows@[k]@);
            }
        }
        Ok(out)
    }

    /// The packets queued for a destination with their ids, oldest first.
    pub fn propagation_fetch_with_ids(&mut self, dest_hash: &str) -> (r: Result<Vec<(String, Vec<u8>)>, StoreError>) {
        let rows = self.rows(
            "SELECT id, lxmf_bytes FROM propagation_store
             WHERE dest_hash = ?1
             ORDER BY received_at ASC",
            &[text_arg(dest_hash)],
        )?;
        let mut out: Vec<(String, Vec<u8>)> = Vec::new();
        let mut i: usize = 0;
        while i < rows.len()
            invariant
                i <= rows.len(),
            decreases rows.len() - i,
        {
            let id = col_text(rows[i].as_slice(), 0)?;
            let bytes = col_blob(rows[i].as_slice(), 1)?;
            out.push((id, bytes));
            i = i + 1;
        }
        Ok(out)
    }

    /// Deletes the packets that have expired; returns how many.
    pub fn propagation_expire(&mut self) -> (r: Result<usize, StoreError>) {
        let now = clock_now();
        self.exec("DELETE FROM propagation_store WHERE expires_at <= ?1", &[int_arg(now)])
    }

    /// How many packets are queued and their stored bytes.
    pub fn propagation_stats(&mut self) -> (r: Result<(usize, u64), StoreError>) {
        match self.first_row("SELECT COUNT(*), SUM(size_bytes) FROM propagation_store", &[])? {
            Some(row) => {
                let count = col_int(row.as_slice(), 0)?;
                let total = col_opt_int(row.as_slice(), 1)?;
                let total = match total {
                    Some(t) => t,
                    None => 0,
                };
                let n: usize = if count < 0 {
                    0
                } else {
                    count as usize
                };
                Ok((n, nonneg_u64(total)))
            },
            None => Err(StoreError::QueryReturnedNoRows),
        }
    }

    /// The stored packets in order of arrival and id, at most `limit`,
    /// after the position `after` when given.
    pub fn propagation_inventory(&mut self, limit: usize, after: Option<(i64, &str)>) -> (r: Result<
        Vec<PropagationInventoryRecord>,
        StoreError,
    >) {
        let (after_ts, after_id) = match after {
            Some((ts, id)) => (int_arg(ts), text_arg(id)),
            None => (SqlArg::Null, SqlArg::Null),
        };
        let rows = self.rows(
            "SELECT id, dest_hash, source_hash, received_at, expires_at, size_bytes
             FROM propagation_store
             WHERE (?2 IS NULL OR received_at > ?2 OR (received_at = ?2 AND id > ?3))
             ORDER BY received_at ASC, id ASC LIMIT ?1",
            &[int_arg(len_i64(limit)), after_ts, after_id],
        )?;
        let mut out: Vec<PropagationInventoryRecord> = Vec::new();
        let mut i: usize = 0;
        while i < rows.len()
            invariant
                i <= rows.len(),
            decreases rows.len() - i,
        {
            out.push(inventory_row(rows[i].as_slice())?);
            i = i + 1;
        }
        Ok(out)
    }

    /// Deletes the packets with the given ids.
    pub fn propagation_delete(&mut self, ids: &[String]) -> (r: Result<(), StoreError>) {
        let mut k: usize = 0;
        while k < ids.len()
            invariant
                k <= ids.len(),
            decreases ids.len() - k,
        {
            self.exec("DELETE FROM propagation_store WHERE id = ?1", &[text_arg(ids[k].as_str())])?;
            k = k + 1;
        }
        Ok(())
    }
}

/// The statement that keeps a propagated packet, unless one with its id is
/// kept already.
pub const PACKET_STORE_SQL: &'static str = "INSERT OR IGNORE INTO propagation_store
             (id, dest_hash, lxmf_bytes, source_hash, received_at, expires_at, size_bytes)
             VALUES (?1, ?2, ?3, ?4, ?5, ?6, ?7)";

/// The read of the packets kept for a destination, oldest first.
pub const PACKET_FETCH_SQL: &'static str = "SELECT lxmf_bytes FROM propagation_store
             WHERE dest_hash = ?1
             ORDER BY received_at ASC";

/// The parameters with which a packet received at `now` is kept: its id,
/// destination, bytes, source, arrival, expiry and size.
pub open spec fn packet_args(dest: Seq<char>, bytes: Seq<u8>, source: Option<&str>, now: i64, max_age_secs: u64) -> Seq<ArgView> {
    seq![
        ArgView::Text(packet_id_of(bytes)),
        ArgView::Text(dest),
        ArgView::Blob(bytes),
        match source {
            Some(s) => ArgView::Text(s@),
            None => ArgView::Null,
        },
        ArgView::Int(now),
        ArgView::Int(packet_expiry(now, max_age_secs)),
        ArgView::Int(if bytes.len() <= i64::MAX { bytes.len() as i64 } else { i64::MAX }),
    ]
}

/// Whether `call` kept the packet as received at `now`, and `r` reports
/// whether it was new: true exactly when the statement added a row.
pub open spec fn packet_stored(
    call: SqlCall,
    dest: Seq<char>,
    bytes: Seq<u8>,
    source: Option<&str>,
    now: i64,
    max_age_secs: u64,
    r: Result<bool, StoreError>,
) -> bool {
    &&& call matches SqlCall::Execute(q, a, n)
    &&& q == PACKET_STORE_SQL@
    &&& a == packet_args(dest, bytes, source, now, max_age_secs)
    &&& match r {
        Ok(b) => n matches Some(c) && b == (c > 0),
        Err(_) => n is None,
    }
}

/// Whether `call` read the packets kept for `dest`, oldest first, and `out`
/// is their bytes in that order.
pub open spec fn packets_fetched(call: SqlCall, dest: Seq<char>, out: Seq<Vec<u8>>) -> bool {
    &&& call matches SqlCall::Query(q, a, Some(rows))
    &&& q == PACKET_FETCH_SQL@
    &&& a == seq![ArgView::Text(dest)]
    &&& out.len() == rows.len()
    &&& forall|k: int| 0 <= k < out.len() ==> crate::sql::opt_blob_col(rows[k], 0) == Some((#[trigger] out[k])@)
}

/// The statement that blocks a peer at a time, unless it is blocked already.
pub const BLOCK_PEER_SQL: &'static str = "INSERT OR IGNORE INTO blocked_peers (identity_hash, blocked_at) VALUES (?1, ?2)";

/// The parameters with which a peer is blocked at `now`.
pub open spec fn block_args(identity_hash: Seq<char>, now: i64) -> Seq<ArgView> {
    seq![ArgView::Text(identity_hash), ArgView::Int(now)]
}

/// The statement that unblocks a peer.
pub const UNBLOCK_PEER_SQL: &'static str = "DELETE FROM blocked_peers WHERE identity_hash = ?1";

} // verus!
