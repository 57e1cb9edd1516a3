//! The directory handle and the directory catalog.
//!
//! A `ManagedDirectory` wraps one resolved path and is an immutable value:
//! re-addressing to another partition index yields a new handle.  A
//! `DirectoryOps` owns a base directory and a digit width and issues fresh
//! handles by logical name; it can also plan the toolkit's whole known
//! directory catalog, optionally replicated across a range of partition
//! indices.
//!
//! Neither type owns filesystem state: every operation here is a pure
//! computation over path strings.  The shell around this crate performs
//! the actual create and enumerate calls on the paths these functions
//! return, and maps each failure through [`crate::errors::map_io_err`].

use vstd::prelude::*;

use crate::errors::{
    empty_name_message, missing_dir_message, negative_index_message, validation_empty_name,
    validation_negative_index, FsError,
};
use crate::scheme::{decimal, join, joined, numeral, resolve, resolved};

verus! {

/// The digit width used when none is given.
pub open spec fn digit_or_default(n_digit: Option<usize>) -> usize {
    match n_digit {
        Some(n) => n,
        None => 4,
    }
}

/// The partition index used when none is given.
pub open spec fn index_or_default(idx: Option<i32>) -> i32 {
    match idx {
        Some(i) => i,
        None => 0,
    }
}

/// One addressable directory: a base root, a logical name, a digit width
/// and a partition index, with the path they resolve to.
#[derive(Debug)]
pub struct ManagedDirectory {
    pub base_dir: String,
    pub dirname: String,
    pub n_digit: usize,
    pub idx: i32,
    pub path: String,
}

impl ManagedDirectory {
    /// Well-formedness: the name is non-empty, the index is non-negative,
    /// and the stored path is the one the scheme derives from the fields.
    pub open spec fn wf(&self) -> bool {
        &&& self.dirname@.len() > 0
        &&& self.idx >= 0
        &&& self.path@ == resolved(
            self.base_dir@,
            self.dirname@,
            self.n_digit as nat,
            self.idx as nat,
        )
    }

    /// Creates a handle for `dirname` under `base_dir`.  The digit width
    /// defaults to 4 and the index to 0.  An empty name and a negative
    /// index are rejected with a validation error; nothing is created on
    /// disk: materialization is a separate, explicit step.
    pub fn new(base_dir: &str, dirname: &str, n_digit: Option<usize>, idx: Option<i32>) -> (r:
        Result<ManagedDirectory, FsError>)
        ensures
            dirname@.len() == 0 ==> (r matches Err(e) && e matches FsError::Validation(m) && m@
                == empty_name_message()),
            dirname@.len() > 0 && index_or_default(idx) < 0 ==> (r matches Err(e)
                && e matches FsError::Validation(m) && m@ == negative_index_message()),
            dirname@.len() > 0 && index_or_default(idx) >= 0 ==> (r matches Ok(d) && d.base_dir@
                == base_dir@ && d.dirname@ == dirname@ && d.n_digit == digit_or_default(n_digit)
                && d.idx == index_or_default(idx) && d.path@ == resolved(
                base_dir@,
                dirname@,
                digit_or_default(n_digit) as nat,
                index_or_default(idx) as nat,
            ) && d.wf()),
    {
        let nd: usize = match n_digit {
            Some(n) => n,
            None => 4,
        };
        let ix: i32 = match idx {
            Some(i) => i,
            None => 0,
        };
        if dirname.is_empty() {
            return Err(validation_empty_name());
        }
        if ix < 0 {
            return Err(validation_negative_index());
        }
        let path = resolve(base_dir, dirname, nd, ix as u32);
        Ok(ManagedDirectory {
            base_dir: base_dir.to_owned(),
            dirname: dirname.to_owned(),
            n_digit: nd,
            idx: ix,
            path,
        })
    }

    /// The resolved path of the handle; a pure accessor with no side
    /// effect.
    pub fn get_path(&self) -> (r: String)
        ensures
            r@ == self.path@,
    {
        self.path.clone()
    }

    /// Re-addresses the handle to the partition index `idx`: a new handle
    /// sharing base, name and digit width, with the path recomputed.  A
    /// negative index is rejected with a validation error, and the
    /// original handle is never changed.  The new path is not
    /// materialized.
    pub fn __call__(&self, idx: i32) -> (r: Result<ManagedDirectory, FsError>)
        ensures
            idx < 0 ==> (r matches Err(e) && e matches FsError::Validation(m) && m@
                == negative_index_message()),
            idx >= 0 ==> (r matches Ok(d) && d.base_dir@ == self.base_dir@ && d.dirname@
                == self.dirname@ && d.n_digit == self.n_digit && d.idx == idx && d.path@
                == resolved(self.base_dir@, self.dirname@, self.n_digit as nat, idx as nat) && (
            self.wf() ==> d.wf())),
    {
        if idx < 0 {
            return Err(validation_negative_index());
        }
        let path = resolve(self.base_dir.as_str(), self.dirname.as_str(), self.n_digit, idx as u32);
        Ok(ManagedDirectory {
            base_dir: self.base_dir.clone(),
            dirname: self.dirname.clone(),
            n_digit: self.n_digit,
            idx,
            path,
        })
    }

    /// The decision behind directory enumeration: a directory that was
    /// never materialized cannot be listed.  `exists` is what the
    /// filesystem answered for the handle's path; when it is false the
    /// result is the not-found error naming that path, otherwise the
    /// enumeration may proceed.
    pub fn list_check(&self, exists: bool) -> (r: Result<(), FsError>)
        ensures
            !exists ==> (r matches Err(e) && e matches FsError::NotFound(m) && m@
                == missing_dir_message(self.path@)),
            exists ==> r is Ok,
    {
        if !exists {
            Err(FsError::NotFound(
                String::from_str("Directory does not exist: ").concat(self.path.as_str()),
            ))
        } else {
            Ok(())
        }
    }

    /// The handle rendered as its resolved path.
    pub fn __str__(&self) -> (r: String)
        ensures
            r@ == self.path@,
    {
        self.path.clone()
    }

    /// The diagnostic rendering of the handle: the scheme name and the
    /// resolved path.
    pub fn __repr__(&self) -> (r: String)
        ensures
            r@ == "ManagedDirectory(path="@ + self.path@ + ")"@,
    {
        String::from_str("ManagedDirectory(path=").concat(self.path.as_str()).concat(")")
    }
}

/// The catalog names created only at the base root, never replicated
/// across partition indices.
pub open spec fn base_only_names() -> Seq<Seq<char>> {
    seq!["invoice"@, "invoice_patch"@, "attachment"@, "tasksupport"@]
}

/// The catalog names that support replication under `divided/<index>/`.
pub open spec fn divided_supported_names() -> Seq<Seq<char>> {
    seq![
        "structured"@,
        "meta"@,
        "thumbnail"@,
        "main_image"@,
        "other_image"@,
        "nonshared_raw"@,
        "raw"@,
    ]
}

/// The whole catalog vocabulary: the base-only names, then the
/// divided-supported names.
pub open spec fn all_names() -> Seq<Seq<char>> {
    base_only_names() + divided_supported_names()
}

/// The paths of the divided-supported names at partition index `i`, in
/// vocabulary order.
pub open spec fn divided_block(base: Seq<char>, digits: nat, i: nat) -> Seq<Seq<char>> {
    Seq::new(7, |j: int| resolved(base, divided_supported_names()[j], digits, i))
}

/// The paths of the divided-supported names at every partition index from
/// 1 through `max`, in ascending index order.
pub open spec fn divided_blocks(base: Seq<char>, digits: nat, max: nat) -> Seq<Seq<char>>
    decreases max,
{
    if max == 0 {
        Seq::empty()
    } else {
        divided_blocks(base, digits, (max - 1) as nat) + divided_block(base, digits, max)
    }
}

/// The complete ordered list of catalog paths: every catalog name at the
/// base root (index 0), then, for each partition index from 1 through
/// `max` in ascending order, the divided-supported names at that index.
pub open spec fn catalog_paths(base: Seq<char>, digits: nat, max: nat) -> Seq<Seq<char>> {
    Seq::new(11, |j: int| joined(base, all_names()[j])) + divided_blocks(base, digits, max)
}

/// The number of replicated index blocks that a `max_index` argument asks
/// for: none when the argument is absent or not positive.
pub open spec fn replication_count(idx: Option<i32>) -> nat {
    match idx {
        Some(m) => if m >= 0 {
            m as nat
        } else {
            0
        },
        None => 0,
    }
}

/// The directory catalog: a base root and a digit width.  It produces
/// fresh, independent handles by logical name and keeps no record of the
/// handles it issued.
#[derive(Debug)]
pub struct DirectoryOps {
    pub base_dir: String,
    pub n_digit: usize,
}

impl DirectoryOps {
    /// Creates a catalog over `base_dir`.  The digit width defaults to 4.
    /// The catalog value itself is pure; the shell around this crate
    /// materializes the base root eagerly when it constructs one.
    pub fn new(base_dir: &str, n_digit: Option<usize>) -> (r: DirectoryOps)
        ensures
            r.base_dir@ == base_dir@,
            r.n_digit == digit_or_default(n_digit),
    {
        let nd: usize = match n_digit {
            Some(n) => n,
            None => 4,
        };
        DirectoryOps { base_dir: base_dir.to_owned(), n_digit: nd }
    }

    /// Looks the logical name up: a fresh handle for `name` at index 0,
    /// rooted at the catalog's base and digit width.  The lookup has no
    /// side effect; only an explicit materialization touches the disk.
    /// An empty name is rejected with a validation error.
    pub fn __getattr__(&self, name: &str) -> (r: Result<ManagedDirectory, FsError>)
        ensures
            name@.len() == 0 ==> (r matches Err(e) && e matches FsError::Validation(m) && m@
                == empty_name_message()),
            name@.len() > 0 ==> (r matches Ok(d) && d.base_dir@ == self.base_dir@ && d.dirname@
                == name@ && d.n_digit == self.n_digit && d.idx == 0 && d.path@ == joined(
                self.base_dir@,
                name@,
            ) && d.wf()),
    {
        ManagedDirectory::new(self.base_dir.as_str(), name, Some(self.n_digit), Some(0))
    }

    /// Plans the complete catalog: the paths of all catalog names at the
    /// base root and, when `idx` gives a maximum index, the
    /// divided-supported names replicated at every index from 1 through
    /// that maximum, in the order [`catalog_paths`] states.  A negative
    /// maximum is rejected with a validation error before anything else
    /// happens.  The shell around this crate creates each returned path
    /// in order.
    pub fn all(&self, idx: Option<i32>) -> (r: Result<Vec<String>, FsError>)
        ensures
            (idx matches Some(m) && m < 0) ==> (r matches Err(e) && e matches FsError::Validation(
                msg,
            ) && msg@ == negative_index_message()),
            index_or_default(idx) >= 0 ==> (r matches Ok(v) && v.deep_view() == catalog_paths(
                self.base_dir@,
                self.n_digit as nat,
                replication_count(idx),
            )),
    {
        let max_idx: i32 = match idx {
            Some(m) => {
                if m < 0 {
                    return Err(validation_negative_index());
                }
                m
            },
            None => 0,
        };
        let base = self.base_dir.as_str();
        let mut result: Vec<String> = Vec::new();
        result.push(join(base, "invoice"));
        result.push(join(base, "invoice_patch"));
        result.push(join(base, "attachment"));
        result.push(join(base, "tasksupport"));
        result.push(join(base, "structured"));
        result.push(join(base, "meta"));
        result.push(join(base, "thumbnail"));
        result.push(join(base, "main_image"));
        result.push(join(base, "other_image"));
        result.push(join(base, "nonshared_raw"));
        result.push(join(base, "raw"));
        proof {
            assert(result.deep_view() =~= catalog_paths(self.base_dir@, self.n_digit as nat, 0));
        }
        let mut i: i64 = 1;
        while i <= max_idx as i64
            invariant
                0 <= max_idx,
                1 <= i <= max_idx as i64 + 1,
                result.deep_view() == catalog_paths(
                    self.base_dir@,
                    self.n_digit as nat,
                    (i - 1) as nat,
                ),
            decreases max_idx as i64 + 1 - i,
        {
            let base = self.base_dir.as_str();
            let nd = self.n_digit;
            let ghost prev = result.deep_view();
            result.push(resolve(base, "structured", nd, i as u32));
            result.push(resolve(base, "meta", nd, i as u32));
            result.push(resolve(base, "thumbnail", nd, i as u32));
            result.push(resolve(base, "main_image", nd, i as u32));
            result.push(resolve(base, "other_image", nd, i as u32));
            result.push(resolve(base, "nonshared_raw", nd, i as u32));
            result.push(resolve(base, "raw", nd, i as u32));
            proof {
                let b = self.base_dir@;
                let d = self.n_digit as nat;
                assert(divided_blocks(b, d, i as nat) == divided_blocks(b, d, (i - 1) as nat)
                    + divided_block(b, d, i as nat));
                assert(result.deep_view() =~= prev + divided_block(b, d, i as nat));
                assert(result.deep_view() =~= catalog_paths(b, d, i as nat));
            }
            i = i + 1;
        }
        Ok(result)
    }

    /// The diagnostic rendering of the catalog: its base root and digit
    /// width.
    pub fn __repr__(&self) -> (r: String)
        ensures
            r@ == "DirectoryOps(base_dir="@ + self.base_dir@ + ", n_digit="@ + decimal(
                self.n_digit as nat,
            ) + ")"@,
    {
        String::from_str("DirectoryOps(base_dir=").concat(self.base_dir.as_str()).concat(
            ", n_digit=",
        ).concat(numeral(self.n_digit).as_str()).concat(")")
    }
}

} // verus!
