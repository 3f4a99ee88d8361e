# evosim

An evolving ecosystem: herbivores roam a square world, eat plants, have
children and die; a genetic algorithm breeds the networks that steer them and
a small web server shows the world.

`src/` is the verified library (Verus). It holds what the simulation decides
in whole numbers:

- `herbivore`, `plant`, `grid` - the state machines of the beasts (turning,
  field-of-view bounds, meals and children, death), with their laws;
- `signals` - the sensory grid a beast fills before acting;
- `gen_alg` - genome layout, fresh-genome plans, crossover, mutation sites
  and tournament selection;
- `ranking` - the stable ranking that decides which files are kept;
- `server` - request routing and HTTP framing;
- `simulation`, `beast`, `text`, `config` - the rest of the rules.

`app/` is the program around it: threads and channels, files, sockets, JSON,
the floating-point geometry and the neural networks.
