# belfast

A WebGPU rendering library whose rules are proved with Verus.

`src/` is the verified core: uniform block packing with WGSL alignment,
vertex-layout and index-buffer validation of meshes, generated plane and cube
geometry, the interface checks that tie a WGSL draw or compute shader to its
meshes, bind groups and buffer layouts (shaders are parsed and validated by
naga), texture and render-target planning, surface color selection, frame
planning, and the decisions of the surface and orbital-control state.

`app/` is the GPU side: wgpu devices, buffers, pipelines, textures, render
targets and frame encoding around the core, plus the floating-point cameras,
orbital control and geometry scaling.

`tests/` exercises the core on concrete inputs.
