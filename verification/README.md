# microflow

A quantized inference engine for small targets: the kernels of a 1-D
convolution and of a fully connected layer, and the compiler that turns a
TensorFlow Lite graph into a chain of layers.

- `src/` is the verified library. `ops/` holds the kernels, `compiler/` the
  passes over a model: folding of shape operators (`fold`), conversions between
  layers (`conversion`), the layers themselves (`conv_1d`, `fully_connected`)
  and the plan of a whole model (`plan`, `model`). The files that end in
  `_laws` state what holds across functions.
- `app/` is the ordinary Rust around it: reading of model files, generation of
  code, messages, and the single-precision arithmetic on scales, which the
  kernels take as arguments.
- `tests/` runs the library.

A function whose name starts with `checked_` returns `None` where a value
leaves its machine type or an entry is missing; the function of the plain name
excludes those inputs by its precondition.
