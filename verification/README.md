# gpu-setfan

Keeps a GPU at a target temperature by driving its fans with a PI controller,
switching the fans on at a fan-on temperature and off at a lower fan-off
temperature (hysteresis).

- `src/` is the verified library (Verus): the on/off switching of the fans,
  the main loop's step-by-step decisions, and the listing of GPU names.
- `app/` is the program around it: command-line parsing, logging, NVML access,
  and the floating-point parts (temperatures, fan speeds, the PI controller and
  the validation of the configured temperatures).
- `tests/` exercises the library on concrete values.
