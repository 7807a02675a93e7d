# versioninfo

Version information for Windows executables, verified with Verus.

A `VersionInfo` holds the data of a VERSIONINFO resource: file and product
version, flags, target system, file type and one block of strings per
language. `VersionInfo::to_string` writes the resource script for it, and its
contract states the whole script as a specification (`rc_script`).

Layout:

- `src/decimal.rs`: decimal numbers, written and read back (`u16` parsing).
- `src/codes.rs`: languages and code pages.
- `src/attributes.rs`: strings, versions, flags, operating systems, file types.
- `src/versioninfo.rs`: string blocks, the resource script, and the version
  information made from cargo's environment.
- `src/layout.rs`: what a script without languages holds and how it ends.
- `src/text.rs`: replacing and splitting text.
- `src/link.rs`: the decisions of linking (at most once) and the arguments of
  the resource compiler, with and without the target's object format.
- `app/`: what a build script does around the library: reading environment
  variables, writing the script and compiling it.
