# ffr

Fixed foveated rendering for VR applications that do not know about it, by
variable-rate shading.

Two layers sit in the application's process. The OpenXR layer watches frames and
publishes, for every image of every eye, where the optical centre lies. The
Vulkan layer finds those images among the attachments of the application's
renders and attaches a shading-rate map that is full rate at the optical centre
and coarser towards the edge. They meet in a small registry of records.

`src/` is the library, written in Verus. It holds the data and the decisions:

| module | what it holds |
| --- | --- |
| `rate`, `wire`, `binary32`, `text` | encodings: rates, records, the order of real numbers on their bit patterns, decimal text |
| `foveation`, `config` | the map of an eye, and the falloff of a headset |
| `shared`, `registry` | the registry of records, and the layers' way to it |
| `vk` | Vulkan's numbers, and the functions of `ash` that the library calls |
| `dispatch`, `table`, `device` | routing of Vulkan calls, tables of handles, device creation |
| `render_pass`, `legacy` | render passes and framebuffers with a shading-rate attachment |
| `rendering`, `pipeline`, `upload` | dynamic rendering, pipelines, and shading-rate images |
| `kill_switch` | what holds of a layer that is switched off |
| `xr_layer` | the OpenXR layer |
| `logging` | log files |
| `test_app`, `mv_check` | the stereo test application and the headless multiview harness |

Handles, entry points and chains of structures are plain integers there, and a
real number is its bit pattern. Only the functions of `ash` in `vk` are taken on
trust; each says what is claimed of it.

`app/` is the rest: exported entry points, driver calls, files, and the
floating-point arithmetic. `tests/` runs the library.
