# const_experiments

A vector whose capacity `N` is a const generic parameter, verified with Verus.

- `src/vec.rs`: the `Vec<T, N>` type, its model (the sequence of elements it
  holds) and every operation, each with a contract over that model.
- `src/laws.rs`: properties that relate several operations (push then pop,
  what `swap_remove` keeps, truncating twice, exact clones).
- `tests/`: tests run against the compiled library.
- `app/`: a small program that uses the library.

The elements are kept in a `std::vec::Vec` whose length never exceeds `N`:
operations that add elements either report failure (`push`,
`extend_from_slice`) or demand room in their precondition (`push_unchecked`,
`extend`).
