# librbd_sys

Records of Ceph's block device library (librbd).

- `src/` (verified with Verus): plain-value models of the snapshot and image
  records, with the contracts of their `clone` (a field-for-field copy) and
  `default` (the all-zero record).
- `app/`: the C-layout (`#[repr(C)]`) records, their conversions to and from
  the library's records, and the `extern "C"` declarations of librbd.
- `tests/`: tests of the library's records.
