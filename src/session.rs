//! The session lifecycle: whether a stored session is trusted at startup, what
//! each user action does to the session and to the credential store, and the
//! laws that follow over whole runs.
use vstd::prelude::*;
use crate::client::{ApiClient, opt_view};
use crate::store::{
    TokenMeta, merged_meta, meta_bytes, canonical_meta, decoded_meta, clean_exit_meta_bytes,
    stored_meta_reads_back,
};

verus! {

/// A change that the controller asks of the credential store.
#[derive(Debug, Clone)]
pub enum StoreOp {
    /// Write the token, and a fresh metadata record with the given flag.
    Persist { token: String, persist: bool },
    /// Set the clean-exit flag, merging into the stored record.
    MarkCleanExit { clean: bool },
    /// Delete both files.
    Clear,
}

/// What the credential store holds on disk: the token file and the bytes of
/// the metadata file.
pub ghost struct DiskImage {
    pub token: Option<Seq<char>>,
    pub meta: Option<Seq<u8>>,
}

/// The store after one change.
pub open spec fn apply_op(d: DiskImage, op: StoreOp) -> DiskImage {
    match op {
        StoreOp::Persist { token, persist } => DiskImage {
            token: Some(token@),
            meta: Some(meta_bytes(TokenMeta { persist, clean_exit: false })),
        },
        StoreOp::MarkCleanExit { clean } => DiskImage {
            token: d.token,
            meta: Some(clean_exit_meta_bytes(d.meta, clean)),
        },
        StoreOp::Clear => DiskImage { token: None, meta: None },
    }
}

/// The store after a sequence of changes, in order.
pub open spec fn apply_ops(d: DiskImage, ops: Seq<StoreOp>) -> DiskImage
    decreases ops.len(),
{
    if ops.len() == 0 {
        d
    } else {
        apply_ops(apply_op(d, ops[0]), ops.drop_first())
    }
}

/// What `str::trim` leaves of a text: it without leading and trailing white space.
pub uninterp spec fn trimmed(s: Seq<char>) -> Seq<char>;

/// Relies on str::trim to drop surrounding white space.
#[verifier::external_body]
fn trim_text(s: &str) -> (r: String)
    ensures
        r@ == trimmed(s@),
{
    s.trim().to_string()
}

/// The token a startup restores: the stored one, trimmed, exactly when it is
/// there and the stored record says that the previous run exited cleanly.
pub open spec fn restored_token(meta: Option<TokenMeta>, stored: Option<Seq<char>>) -> Option<
    Seq<char>,
> {
    match meta {
        Some(m) => if m.clean_exit {
            match stored {
                Some(t) => Some(trimmed(t)),
                None => None,
            }
        } else {
            None
        },
        None => None,
    }
}

/// The token that a startup restores from what the store holds, reading the
/// metadata bytes as the store reads them.
pub open spec fn restored_from(d: DiskImage) -> Option<Seq<char>> {
    restored_token(
        match d.meta {
            Some(b) => Some(decoded_meta(b)),
            None => None,
        },
        d.token,
    )
}

/// The metadata holds the stored form of a record that is not cleanly exited.
pub open spec fn stored_unclean(d: DiskImage) -> bool {
    match d.meta {
        Some(b) => canonical_meta(b) is Some && !canonical_meta(b)->Some_0.clean_exit,
        None => true,
    }
}

/// The metadata holds the stored form of some record.
pub open spec fn stored_record(d: DiskImage) -> bool {
    d.meta is Some && canonical_meta(d.meta->Some_0) is Some
}

/// Startup: restores the stored session when it is trusted, and then asks
/// that this run be marked as not cleanly exited.
pub fn startup(api: &mut ApiClient, meta: Option<TokenMeta>, stored: Option<String>) -> (op: StoreOp)
    ensures
        opt_view(final(api).token) == restored_token(meta, opt_view(stored)),
        final(api).base_url == old(api).base_url,
        op == (StoreOp::MarkCleanExit { clean: false }),
{
    match meta {
        Some(m) => {
            if m.clean_exit {
                match stored {
                    Some(t) => {
                        let tok = trim_text(t.as_str());
                        api.set_token(tok.as_str());
                    },
                    None => {
                        api.clear_token();
                    },
                }
            } else {
                api.clear_token();
            }
        },
        None => {
            api.clear_token();
        },
    }
    StoreOp::MarkCleanExit { clean: false }
}

/// A successful login: the session holds the token, and the store is asked to
/// keep it with the user's choice of remembering it.
pub fn login_succeeded(api: &mut ApiClient, token: String, remember: bool) -> (op: StoreOp)
    ensures
        opt_view(final(api).token) == Some(token@),
        final(api).base_url == old(api).base_url,
        op == (StoreOp::Persist { token, persist: remember }),
{
    api.set_token(token.as_str());
    StoreOp::Persist { token, persist: remember }
}

/// Logout: the session forgets the token and the store is cleared, whatever
/// flag it was written with.
pub fn logout(api: &mut ApiClient) -> (op: StoreOp)
    ensures
        final(api).token is None,
        final(api).base_url == old(api).base_url,
        op == StoreOp::Clear,
{
    api.clear_token();
    StoreOp::Clear
}

/// A graceful exit: the store is asked to record a clean exit.
pub fn graceful_exit() -> (op: StoreOp)
    ensures
        op == (StoreOp::MarkCleanExit { clean: true }),
{
    StoreOp::MarkCleanExit { clean: true }
}

/// No change in `ops` records a clean exit.
pub open spec fn never_marks_clean(ops: Seq<StoreOp>) -> bool {
    forall|i: int| 0 <= i < ops.len() ==> !(#[trigger] ops[i] is MarkCleanExit && ops[i]->clean)
}

/// No change in `ops` writes or deletes the token.
pub open spec fn keeps_token(ops: Seq<StoreOp>) -> bool {
    forall|i: int| 0 <= i < ops.len() ==> #[trigger] ops[i] is MarkCleanExit
}

proof fn unclean_stays_unclean(d: DiskImage, ops: Seq<StoreOp>)
    requires
        never_marks_clean(ops),
        stored_unclean(d),
    ensures
        stored_unclean(apply_ops(d, ops)),
    decreases ops.len(),
{
    if ops.len() > 0 {
        let rest = ops.drop_first();
        assert forall|i: int| 0 <= i < rest.len() implies !(#[trigger] rest[i] is MarkCleanExit
            && rest[i]->clean) by {
            assert(rest[i] == ops[i + 1]);
        }
        assert(!(ops[0] is MarkCleanExit && ops[0]->clean));
        let next = apply_op(d, ops[0]);
        match ops[0] {
            StoreOp::Persist { token, persist } => {
                stored_meta_reads_back(TokenMeta { persist, clean_exit: false });
            },
            StoreOp::MarkCleanExit { clean } => {
                let p = match d.meta {
                    Some(b) => canonical_meta(b)->Some_0.persist,
                    None => false,
                };
                stored_meta_reads_back(TokenMeta { persist: p, clean_exit: clean });
            },
            StoreOp::Clear => {},
        }
        assert(stored_unclean(next));
        unclean_stays_unclean(next, rest);
    }
}

proof fn token_survives(d: DiskImage, ops: Seq<StoreOp>)
    requires
        keeps_token(ops),
        stored_record(d),
    ensures
        apply_ops(d, ops).token == d.token,
        stored_record(apply_ops(d, ops)),
    decreases ops.len(),
{
    if ops.len() > 0 {
        let rest = ops.drop_first();
        assert forall|i: int| 0 <= i < rest.len() implies #[trigger] rest[i] is MarkCleanExit by {
            assert(rest[i] == ops[i + 1]);
        }
        assert(ops[0] is MarkCleanExit);
        let m = canonical_meta(d.meta->Some_0)->Some_0;
        stored_meta_reads_back(TokenMeta { persist: m.persist, clean_exit: ops[0]->clean });
        token_survives(apply_op(d, ops[0]), rest);
    }
}

/// A session persisted at login and followed by any changes that never record
/// a clean exit (the run crashed or was killed) is not restored at the next
/// startup.
pub proof fn crash_after_login_is_not_restored(
    d: DiskImage,
    token: String,
    remember: bool,
    later: Seq<StoreOp>,
)
    requires
        never_marks_clean(later),
    ensures
        restored_from(apply_ops(apply_op(d, StoreOp::Persist { token, persist: remember }), later))
            is None,
{
    let after_login = apply_op(d, StoreOp::Persist { token, persist: remember });
    stored_meta_reads_back(TokenMeta { persist: remember, clean_exit: false });
    unclean_stays_unclean(after_login, later);
}

/// A session persisted at login, followed by changes that only set the
/// clean-exit flag and then by a graceful exit, is restored at the next
/// startup with the stored token, trimmed.
pub proof fn graceful_exit_after_login_is_restored(
    d: DiskImage,
    token: String,
    remember: bool,
    later: Seq<StoreOp>,
)
    requires
        keeps_token(later),
    ensures
        restored_from(
            apply_ops(
                apply_op(d, StoreOp::Persist { token, persist: remember }),
                later.push(StoreOp::MarkCleanExit { clean: true }),
            ),
        ) == Some(trimmed(token@)),
{
    let after_login = apply_op(d, StoreOp::Persist { token, persist: remember });
    stored_meta_reads_back(TokenMeta { persist: remember, clean_exit: false });
    token_survives(after_login, later);
    last_change_decides(after_login, later, StoreOp::MarkCleanExit { clean: true });
    let before_exit = apply_ops(after_login, later);
    let m = canonical_meta(before_exit.meta->Some_0)->Some_0;
    stored_meta_reads_back(TokenMeta { persist: m.persist, clean_exit: true });
}

proof fn last_change_decides(d: DiskImage, ops: Seq<StoreOp>, last: StoreOp)
    ensures
        apply_ops(d, ops.push(last)) == apply_op(apply_ops(d, ops), last),
    decreases ops.len(),
{
    if ops.len() == 0 {
        assert(ops.push(last).drop_first() =~= Seq::<StoreOp>::empty());
        assert(ops.push(last)[0] == last);
        assert(apply_ops(apply_op(d, last), Seq::<StoreOp>::empty()) == apply_op(d, last));
    } else {
        assert(ops.push(last)[0] == ops[0]);
        assert(ops.push(last).drop_first() =~= ops.drop_first().push(last));
        last_change_decides(apply_op(d, ops[0]), ops.drop_first(), last);
    }
}

/// Logout leaves no stored credential, whatever was stored and with whatever
/// flag, so the next startup restores nothing.
pub proof fn logout_clears_store(d: DiskImage)
    ensures
        apply_op(d, StoreOp::Clear).token is None,
        apply_op(d, StoreOp::Clear).meta is None,
        restored_from(apply_op(d, StoreOp::Clear)) is None,
{
}

/// Setting the clean-exit flag on a stored record keeps its `persist` flag,
/// and what is stored then reads back as that record with the flag set.
pub proof fn mark_clean_exit_keeps_persist(m: TokenMeta, clean: bool)
    ensures
        merged_meta(Some(m), clean) == (TokenMeta { persist: m.persist, clean_exit: clean }),
        decoded_meta(clean_exit_meta_bytes(Some(meta_bytes(m)), clean)) == (TokenMeta {
            persist: m.persist,
            clean_exit: clean,
        }),
{
    stored_meta_reads_back(m);
    stored_meta_reads_back(TokenMeta { persist: m.persist, clean_exit: clean });
}

} // verus!
