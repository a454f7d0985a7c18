# gela

Linear algebra for games and graphics: vectors, square matrices, rotations,
isometries and affine transforms, generic over their element type, with
SIMD-aligned variants whose components are IEEE-754 binary32 values.

## Layout

- `src/` is the verified library. Every function there carries a contract
  that Verus proves.
  - `bits`: binary32 values held by their bit encodings; classification,
    absolute value, negation and IEEE equality, decided on the bits.
  - `num`: the integer element types and their exact, checked, wrapping,
    saturating, Euclidean and bitwise arithmetic.
  - `vector`, `matrix`, `rotation`, `isometry`, `affine`: the generic types
    (any `Copy` element) and the SIMD-aligned types (binary32 encodings),
    with construction, conversion, column and row access, transposition,
    selection, classification and comparison; `vector` adds the integer
    arithmetic of 4D vectors, their masks and their laws.
  - `swizzles`: every reordering of the components of a 4D vector.
  - `convert`: conversions between the types, arrays and tuples.
  - `text`: the bracketed layout of vectors and matrices as text.
- `tests/` runs the library on concrete values.
- `app/` holds what computes on floating-point values, which the verified
  library does not hold: the arithmetic, rotations, projections and
  decompositions of the float types, and the decimal text of components.
