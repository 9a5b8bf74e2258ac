# fast_exif_reader

A reader of camera and video metadata (JPEG APP1, TIFF IFDs and maker
notes, PNG, BMP, HEIF, RAW, QuickTime/MP4/3GP, MKV) that emits ExifTool tag
names, written in Verus.

- `src/` is the verified library. Every parser is a function from the file's
  bytes (and the tag map it fills) to its result, with a contract that
  states the result through spec functions such as `tiff_outcome`,
  `jpeg_outcome` or `video_outcome`. Values whose printed form needs
  floating point are kept as exact fractions (`metadata::Real`) with the
  style in which they are printed.
- `app/` holds what the library leaves to its host: opening and mapping
  files, rayon batches, the SQLite store of the cache, AVX2 detection, the
  error type with `std::error::Error`, the printing of fractions, and the
  checks and derived fields computed in floating point.
- `tests/` exercises the library on built byte sequences.
