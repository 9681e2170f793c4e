//! Output-path conflict resolution: given the set of paths that already
//! exist, decide the final output path under the configured policy.
//!
//! The resolver is pure: the caller supplies the existing paths and performs
//! every filesystem access itself.

use vstd::prelude::*;
use crate::config::FileConflictMode;
use crate::error::{AppError, AppResult};
use crate::pathutil::{
    build_candidate, ext_of, file_name_of, last_index_of, parent_of, rename_candidate,
    split_dir_name, split_stem_ext, stem_of,
};

verus! {

/// Whether `p` is among the existing paths.
pub open spec fn exists_in(existing: Seq<String>, p: Seq<char>) -> bool {
    exists|i: int| 0 <= i < existing.len() && existing[i]@ == p
}

/// Checks whether `p` is among the existing paths.
pub fn contains_path(existing: &Vec<String>, p: &String) -> (r: bool)
    ensures
        r == exists_in(existing@, p@),
{
    let mut i: usize = 0;
    while i < existing.len()
        invariant
            i <= existing@.len(),
            forall|j: int| 0 <= j < i ==> existing@[j]@ != p@,
        decreases existing@.len() - i,
    {
        if existing[i] == *p {
            return true;
        }
        i = i + 1;
    }
    false
}

/// A rename base is usable when it has a file name with an extension: a `.`
/// past the name's first character.
pub open spec fn valid_rename_base(base: Seq<char>) -> bool {
    file_name_of(base).len() > 0 && last_index_of(file_name_of(base), '.') > 0
}

/// The first rename candidate, counting from `n` up to 1000, that does not
/// exist yet; `None` when every one of them exists.
pub open spec fn first_free_candidate(base: Seq<char>, existing: Seq<String>, n: nat) -> Option<
    Seq<char>,
>
    decreases 1001 - n,
{
    if n > 1000 {
        None
    } else if !exists_in(existing, rename_candidate(base, n)) {
        Some(rename_candidate(base, n))
    } else {
        first_free_candidate(base, existing, n + 1)
    }
}

/// When the candidates from `lo` up to (excluding) `hi` all exist, the search
/// from `lo` and the search from `hi` agree.
proof fn lemma_first_free_skip(base: Seq<char>, existing: Seq<String>, lo: nat, hi: nat)
    requires
        lo <= hi <= 1001,
        forall|m: nat| lo <= m < hi ==> exists_in(existing, #[trigger] rename_candidate(base, m)),
    ensures
        first_free_candidate(base, existing, lo) == first_free_candidate(base, existing, hi),
    decreases hi - lo,
{
    if lo < hi {
        assert(exists_in(existing, rename_candidate(base, lo)));
        lemma_first_free_skip(base, existing, lo + 1, hi);
    }
}

/// The resolver's whole decision as one function: `None` stands for an error
/// (an unusable file name, or an exhausted counter), `Some(None)` for a
/// skipped file, and `Some(Some(p))` for the path to write.
pub open spec fn resolution_spec(
    base: Seq<char>,
    mode: FileConflictMode,
    existing: Seq<String>,
) -> Option<Option<Seq<char>>> {
    match mode {
        FileConflictMode::Overwrite => Some(Some(base)),
        FileConflictMode::Skip => if exists_in(existing, base) {
            Some(None)
        } else {
            Some(Some(base))
        },
        FileConflictMode::Rename => if !exists_in(existing, base) {
            Some(Some(base))
        } else if !valid_rename_base(base) {
            None
        } else {
            match first_free_candidate(base, existing, 1) {
                Some(p) => Some(Some(p)),
                None => None,
            }
        },
    }
}

/// Decides the final output path for `base_path` under `mode`, given the
/// paths that already exist.
///
/// Overwrite always keeps the base path. Skip returns no path exactly when
/// the base path exists. Rename keeps a free base path, otherwise returns
/// the first free candidate `stem_(n).ext` for `n` counting from 1, fails
/// with `InvalidConfig` when the base path has no usable file name, and
/// fails with `ConflictExhausted` when the first 1000 candidates all exist.
pub fn resolve_output_path(
    base_path: &String,
    mode: &FileConflictMode,
    existing: &Vec<String>,
) -> (r: AppResult<Option<String>>)
    ensures
        *mode == FileConflictMode::Overwrite ==> (r matches Ok(p) && p matches Some(q) && q@
            == base_path@),
        *mode == FileConflictMode::Skip && exists_in(existing@, base_path@) ==> (r matches Ok(p)
            && p is None),
        *mode == FileConflictMode::Skip && !exists_in(existing@, base_path@) ==> (r matches Ok(p)
            && p matches Some(q) && q@ == base_path@),
        *mode == FileConflictMode::Rename && !exists_in(existing@, base_path@) ==> (r matches Ok(p)
            && p matches Some(q) && q@ == base_path@),
        *mode == FileConflictMode::Rename && exists_in(existing@, base_path@)
            && !valid_rename_base(base_path@) ==> (r matches Err(e) && e matches
            AppError::InvalidConfig(_)),
        *mode == FileConflictMode::Rename && exists_in(existing@, base_path@) && valid_rename_base(
            base_path@,
        ) ==> match first_free_candidate(base_path@, existing@, 1) {
            Some(p) => r matches Ok(op) && op matches Some(q) && q@ == p,
            None => r matches Err(e) && e matches AppError::ConflictExhausted,
        },
        match resolution_spec(base_path@, *mode, existing@) {
            Some(Some(p)) => r matches Ok(o) && o matches Some(q) && q@ == p,
            Some(None) => r matches Ok(o) && o is None,
            None => r is Err,
        },
{
    match mode {
        FileConflictMode::Overwrite => Ok(Some(base_path.clone())),
        FileConflictMode::Skip => {
            if contains_path(existing, base_path) {
                Ok(None)
            } else {
                Ok(Some(base_path.clone()))
            }
        },
        FileConflictMode::Rename => {
            if !contains_path(existing, base_path) {
                return Ok(Some(base_path.clone()));
            }
            let (parent, name) = split_dir_name(base_path.as_str());
            if name.unicode_len() == 0 {
                return Err(AppError::InvalidConfig(String::from_str("invalid filename")));
            }
            let (stem, ext_opt) = split_stem_ext(name.as_str());
            let ext = match ext_opt {
                Some(e) => e,
                None => {
                    return Err(AppError::InvalidConfig(String::from_str("invalid extension")));
                },
            };
            let ghost base = base_path@;
            let mut n: u32 = 1;
            while n <= 1000
                invariant
                    1 <= n <= 1001,
                    base == base_path@,
                    *mode == FileConflictMode::Rename,
                    exists_in(existing@, base),
                    valid_rename_base(base),
                    parent@ == parent_of(base),
                    stem@ == stem_of(file_name_of(base)),
                    ext@ == file_name_of(base).subrange(
                        last_index_of(file_name_of(base), '.') + 1,
                        file_name_of(base).len() as int,
                    ),
                    forall|m: nat| 1 <= m < n ==> exists_in(
                        existing@,
                        #[trigger] rename_candidate(base, m),
                    ),
                decreases 1001 - n,
            {
                let cand = build_candidate(parent.as_str(), stem.as_str(), ext.as_str(), n);
                proof {
                    assert(cand@ =~= rename_candidate(base, n as nat));
                }
                if !contains_path(existing, &cand) {
                    proof {
                        lemma_first_free_skip(base, existing@, 1, n as nat);
                    }
                    return Ok(Some(cand));
                }
                n = n + 1;
            }
            proof {
                lemma_first_free_skip(base, existing@, 1, 1001);
            }
            Err(AppError::ConflictExhausted)
        },
    }
}

} // verus!
