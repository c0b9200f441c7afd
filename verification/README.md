# getlla

A cross-platform location source that polls the GPS API of the host platform for a
position (latitude, longitude, altitude above the WGS84 ellipsoid).

- `src/` is the verified library: the choice of a location source for the host platform,
  the permission and position decisions of the Windows backend, the step machines that
  drive the JNI lookups of the Android backend, and the location slot and status reports of
  the macOS backend. Positions are carried as the bit patterns of their `f64` coordinates.
- `app/` is the program around it: it detects the platform, makes the calls into WinRT,
  CoreLocation or the Java runtime, hands their outcomes to the library, and prints a
  position every five seconds.
- `tests/` exercises the library on concrete values.
