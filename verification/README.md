# sumatra_parser

A verified reader for Java class files (JVMS 4), with the small pieces of a
Java virtual machine's native support that are pure computations.

- `src/` is the library, written in Verus. Each decoding step is stated as a
  spec function on byte sequences (`decode`, `pool_reader`, `code_reader`,
  `class_attr_reader`, `anno_reader`, `member_reader`, `class_file`), and each
  executable reader is proved to return exactly what its spec function
  gives, including which error comes out on malformed input.
  `instruction` decodes byte code arrays and turns branch offsets into
  instruction indices; `desc_types` parses field and method descriptors;
  `registry` maps native method identifiers to their implementations;
  `system_props` and `natives` hold the values and computations behind a few
  native methods.
- `tests/` runs the library on concrete inputs.
- `app/` is a command line program that reads a `.class` file and prints
  the parsed structure.
